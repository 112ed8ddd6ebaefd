//! Classification of requested files and the resources read for them.

use crate::text::chars_of;
use vstd::prelude::*;

verus! {

/// The coarse content classes a file can fall in, by extension.
#[derive(Copy, Clone, Debug, PartialEq, Eq, Structural)]
pub enum ResourceType {
    HTML,
    JS,
    CSS,
    ICO,
    XML,
    UNKNOWN,
}

/// The index just past the last `.` of `s`, or 0 when `s` holds none.
pub open spec fn last_dot_end(s: Seq<char>) -> int
    decreases s.len(),
{
    if s.len() == 0 {
        0
    } else if s.last() == '.' {
        s.len() as int
    } else {
        last_dot_end(s.drop_last())
    }
}

/// What follows the last `.` of a file name; the whole name when it has none.
pub open spec fn extension(s: Seq<char>) -> Seq<char> {
    s.subrange(last_dot_end(s), s.len() as int)
}

/// The class of a file with the given extension.
pub open spec fn classify(ext: Seq<char>) -> ResourceType {
    if ext == "html"@ {
        ResourceType::HTML
    } else if ext == "js"@ {
        ResourceType::JS
    } else if ext == "css"@ {
        ResourceType::CSS
    } else if ext == "ico"@ {
        ResourceType::ICO
    } else if ext == "xml"@ {
        ResourceType::XML
    } else {
        ResourceType::UNKNOWN
    }
}

/// The MIME type sent for each class.
pub open spec fn mime_of(t: ResourceType) -> Seq<char> {
    match t {
        ResourceType::HTML => "text/html"@,
        ResourceType::JS => "text/javascript"@,
        ResourceType::CSS => "text/css"@,
        ResourceType::ICO => "image/x-icon"@,
        ResourceType::XML => "application/xml"@,
        ResourceType::UNKNOWN => "text/plain"@,
    }
}

/// Whether the characters of `v` from `start` on spell out `lit`.
fn tail_is(v: &Vec<char>, start: usize, lit: &str) -> (r: bool)
    requires
        start <= v@.len(),
    ensures
        r == (v@.subrange(start as int, v@.len() as int) == lit@),
{
    let n = lit.unicode_len();
    if v.len() - start != n {
        return false;
    }
    let mut i: usize = 0;
    while i < n
        invariant
            start + n == v@.len(),
            v@.len() <= usize::MAX,
            n == lit@.len(),
            i <= n,
            forall|j: int| 0 <= j < i ==> v@[start + j] == lit@[j],
        decreases n - i,
    {
        if v[start + i] != lit.get_char(i) {
            assert(v@.subrange(start as int, v@.len() as int)[i as int] != lit@[i as int]);
            return false;
        }
        i = i + 1;
    }
    assert(v@.subrange(start as int, v@.len() as int) =~= lit@);
    true
}

/// The index just past the last `.` of `v`, or 0.
fn find_last_dot_end(v: &Vec<char>) -> (r: usize)
    ensures
        r as int == last_dot_end(v@),
        r <= v@.len(),
{
    let mut i: usize = v.len();
    assert(v@.subrange(0, v@.len() as int) =~= v@);
    while i > 0 && v[i - 1] != '.'
        invariant
            i <= v@.len(),
            last_dot_end(v@.subrange(0, i as int)) == last_dot_end(v@),
        decreases i,
    {
        assert(v@.subrange(0, i as int).drop_last() =~= v@.subrange(0, i - 1));
        i = i - 1;
    }
    proof {
        lemma_last_dot_end_bounds(v@);
    }
    i
}

proof fn lemma_last_dot_end_bounds(s: Seq<char>)
    ensures
        0 <= last_dot_end(s) <= s.len(),
    decreases s.len(),
{
    if s.len() > 0 && s.last() != '.' {
        lemma_last_dot_end_bounds(s.drop_last());
    }
}

impl ResourceType {
    /// Classifies a file by the text after the last `.` of its name.
    pub fn new(filename: &str) -> (r: ResourceType)
        ensures
            r == classify(extension(filename@)),
    {
        let v = chars_of(filename);
        proof {
            assert(v@.subrange(0, v@.len() as int) =~= v@);
        }
        let start = find_last_dot_end(&v);
        proof {
            if v@.len() > 0 && v@.last() != '.' {
                assert(v@.drop_last() =~= v@.subrange(0, v@.len() - 1));
            }
        }
        if tail_is(&v, start, "html") {
            ResourceType::HTML
        } else if tail_is(&v, start, "js") {
            ResourceType::JS
        } else if tail_is(&v, start, "css") {
            ResourceType::CSS
        } else if tail_is(&v, start, "ico") {
            ResourceType::ICO
        } else if tail_is(&v, start, "xml") {
            ResourceType::XML
        } else {
            ResourceType::UNKNOWN
        }
    }

    pub fn get_mime_type(&self) -> (r: String)
        ensures
            r@ == mime_of(*self),
    {
        match self {
            ResourceType::HTML => String::from_str("text/html"),
            ResourceType::JS => String::from_str("text/javascript"),
            ResourceType::CSS => String::from_str("text/css"),
            ResourceType::ICO => String::from_str("image/x-icon"),
            ResourceType::XML => String::from_str("application/xml"),
            ResourceType::UNKNOWN => String::from_str("text/plain"),
        }
    }
}

/// The file under the resource directory that serves a request path; the
/// root path is served by the index page.
pub open spec fn file_path(path: Seq<char>) -> Seq<char> {
    "res"@ + if path == "/"@ {
        "/index.html"@
    } else {
        path
    }
}

/// The bytes of a served file and its class.
pub struct Resource {
    pub data: Vec<u8>,
    pub resource_type: ResourceType,
}

impl Resource {
    /// The file that a request for `path` is served from.
    pub fn file_path(path: &str) -> (r: String)
        ensures
            r@ == file_path(path@),
    {
        let v = chars_of(path);
        let mut r = String::from_str("res");
        if tail_is(&v, 0, "/") {
            r.append("/index.html");
        } else {
            r.append(path);
        }
        proof {
            assert(v@.subrange(0, v@.len() as int) =~= v@);
        }
        r
    }

    /// The resource for a request path, given what reading its file gave:
    /// `None` when the file could not be read.
    pub fn new(path: &str, contents: Option<Vec<u8>>) -> (r: Option<Resource>)
        ensures
            r is Some <==> contents is Some,
            r matches Some(res) ==> res.data == contents->0 && res.resource_type == classify(
                extension(file_path(path@)),
            ),
    {
        match contents {
            Some(data) => {
                let name = Self::file_path(path);
                Some(Resource { data, resource_type: ResourceType::new(name.as_str()) })
            },
            None => None,
        }
    }
}

} // verus!
