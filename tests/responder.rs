use flate2::read::GzDecoder;
use static_responder::cache::{AsyncCache, Cache};
use static_responder::compression::{CompressedData, CompressionType, MIN_SIZE_TO_COMPRESS};
use static_responder::connection::{after_cache_check, after_load, assemble, Step};
use static_responder::request::Request;
use static_responder::resource::{Resource, ResourceType};
use static_responder::response::{build_response, Headers, Status};
use static_responder::text::push_decimal;
use std::io::Read;
use std::sync::Arc;

fn gunzip(data: &[u8]) -> Vec<u8> {
    let mut out = Vec::new();
    GzDecoder::new(data).read_to_end(&mut out).unwrap();
    out
}

fn contains(hay: &[u8], needle: &[u8]) -> bool {
    hay.windows(needle.len()).any(|w| w == needle)
}

#[test]
fn cache_round_trip() {
    let cache = AsyncCache::new();
    let key = String::from("/index.html");
    let value = vec![1u8, 2, 3, 0, 255];
    cache.set_data(&key, &value);
    assert_eq!(cache.get_data(&key), Some(value));
}

#[test]
fn cache_round_trip_empty_value() {
    let mut cache = Cache::new();
    cache.set_data(String::from(""), Vec::new());
    assert_eq!(cache.get_data(&String::from("")), Some(Vec::new()));
}

#[test]
fn cache_overwrite() {
    let cache = AsyncCache::new();
    let key = String::from("/a.css");
    cache.set_data(&key, &vec![1u8]);
    cache.set_data(&key, &vec![2u8, 2]);
    assert_eq!(cache.get_data(&key), Some(vec![2u8, 2]));
}

#[test]
fn cache_miss() {
    let cache = AsyncCache::new();
    cache.set_data(&String::from("/a"), &vec![7u8]);
    assert_eq!(cache.get_data(&String::from("/b")), None);
    assert_eq!(cache.get_data(&String::from("/a/")), None);
}

#[test]
fn table_keeps_distinct_keys_apart() {
    let mut t = Cache::new();
    assert_eq!(t.get_data(&String::from("/x")), None);
    t.set_data(String::from("/x"), vec![1u8]);
    t.set_data(String::from("/y"), vec![2u8]);
    t.set_data(String::from("/x"), vec![3u8]);
    assert_eq!(t.get_data(&String::from("/x")), Some(vec![3u8]));
    assert_eq!(t.get_data(&String::from("/y")), Some(vec![2u8]));
    assert_eq!(t.get_data(&String::from("/z")), None);
}

#[test]
fn concurrent_cache_access() {
    let rt = tokio::runtime::Builder::new_multi_thread().worker_threads(4).build().unwrap();
    let cache = AsyncCache::new();
    rt.block_on(async {
        let mut tasks = Vec::new();
        for n in 0..64u32 {
            let c = Arc::clone(&cache);
            tasks.push(tokio::spawn(async move {
                let key = format!("/k{}", n % 8);
                let value = vec![(n % 251) as u8; 4096];
                for _ in 0..50 {
                    c.set_data(&key, &value);
                    if let Some(v) = c.get_data(&key) {
                        assert_eq!(v.len(), 4096);
                        assert!(v.iter().all(|b| *b == v[0]));
                    }
                }
            }));
        }
        for t in tasks {
            t.await.unwrap();
        }
    });
    for n in 0..8u32 {
        let v = cache.get_data(&format!("/k{}", n)).unwrap();
        assert_eq!(v.len(), 4096);
        assert!(v.iter().all(|b| *b == v[0]));
        assert_eq!(v[0] as u32 % 8, n);
    }
}

#[test]
fn compression_below_threshold_keeps_bytes() {
    let data: Vec<u8> = (0..(MIN_SIZE_TO_COMPRESS - 1)).map(|i| (i % 7) as u8).collect();
    let c = CompressedData::new(&data);
    assert_eq!(c.compressed_type, CompressionType::Identity);
    assert_eq!(c.data, data);
    assert_eq!(c.len(), data.len());
    let empty = CompressedData::new(&Vec::new());
    assert_eq!(empty.compressed_type, CompressionType::Identity);
    assert!(empty.data.is_empty());
}

#[test]
fn compression_at_threshold_gzips() {
    let data: Vec<u8> = (0..MIN_SIZE_TO_COMPRESS).map(|i| (i % 7) as u8).collect();
    let c = CompressedData::new(&data);
    assert_eq!(c.compressed_type, CompressionType::GZip);
    assert_ne!(c.data, data);
    assert_eq!(&c.data[..2], &[0x1f, 0x8b]);
    assert_eq!(gunzip(&c.data), data);
}

#[test]
fn compression_large_input_round_trips() {
    let data: Vec<u8> = (0..100_000usize).map(|i| (i * 31 % 256) as u8).collect();
    let c = CompressedData::new(&data);
    assert_eq!(c.compressed_type, CompressionType::GZip);
    assert_eq!(gunzip(&c.data), data);
}

#[test]
fn from_gzip_wraps_stream() {
    let c = CompressedData::from_gzip(vec![9u8, 8]);
    assert_eq!(c.compressed_type, CompressionType::GZip);
    assert_eq!(c.data, vec![9u8, 8]);
}

#[test]
fn compression_type_names() {
    assert_eq!(CompressionType::GZip.to_string(), "gzip");
    assert_eq!(CompressionType::Identity.to_string(), "identity");
}

#[test]
fn headers_declare_encoding_only_when_compressed() {
    let plain = assemble(
        ResourceType::HTML,
        CompressedData { data: b"hello".to_vec(), compressed_type: CompressionType::Identity },
    );
    assert_eq!(
        plain,
        b"HTTP/2.0 200 OK\r\nContent-Type: text/html\r\nContent-Length: 5\r\n\r\nhello".to_vec()
    );
    assert!(!contains(&plain, b"Content-Encoding"));

    let data: Vec<u8> = vec![b'a'; 5000];
    let body = CompressedData::new(&data);
    let n = body.data.len();
    let packed = body.data.clone();
    let framed = assemble(ResourceType::CSS, body);
    let head = format!(
        "HTTP/2.0 200 OK\r\nContent-Encoding: gzip\r\nContent-Type: text/css\r\nContent-Length: {}\r\n\r\n",
        n
    );
    assert!(framed.starts_with(head.as_bytes()));
    assert_eq!(&framed[head.len()..], &packed[..]);
    assert_eq!(gunzip(&framed[head.len()..]), data);
}

#[test]
fn status_and_headers_bytes() {
    assert_eq!(Status::new(String::from("404 Not Found")).as_bytes(), b"HTTP/2.0 404 Not Found\r\n".to_vec());
    let h = Headers::new(CompressionType::Identity, String::from("text/plain"), 1234567);
    assert_eq!(
        h.as_bytes(Status::new(String::from("200 OK"))),
        b"HTTP/2.0 200 OK\r\nContent-Type: text/plain\r\nContent-Length: 1234567\r\n\r\n".to_vec()
    );
    let g = Headers::new(CompressionType::GZip, String::from("image/x-icon"), 0);
    let r = build_response(&vec![1u8, 2], &g);
    assert_eq!(
        r,
        b"HTTP/2.0 200 OK\r\nContent-Encoding: gzip\r\nContent-Type: image/x-icon\r\nContent-Length: 0\r\n\r\n\x01\x02".to_vec()
    );
}

#[test]
fn decimal_formatting() {
    for n in [0usize, 7, 10, 99, 100, 1024, usize::MAX] {
        let mut s = String::from("x");
        push_decimal(&mut s, n);
        assert_eq!(s, format!("x{}", n));
    }
}

#[test]
fn request_parsing_defaults() {
    let r = Request::new("GET /index.html HTTP/1.1\r\n\r\n");
    assert_eq!(r.method, "GET");
    assert_eq!(r.path, "/index.html");
    let e = Request::new("");
    assert_eq!(e.method, "GET");
    assert_eq!(e.path, "/");
    let d = Request::default();
    assert_eq!(d.method, "GET");
    assert_eq!(d.path, "/");
}

#[test]
fn request_parsing_partial_lines() {
    let r = Request::new("POST\r\n/ignored HTTP/1.1\r\n");
    assert_eq!(r.method, "POST");
    assert_eq!(r.path, "/");
    let blank = Request::new("\r\nGET /x HTTP/1.1\r\n");
    assert_eq!(blank.method, "GET");
    assert_eq!(blank.path, "/");
    let spaced = Request::new("  HEAD\t /a\u{3000}b  ");
    assert_eq!(spaced.method, "HEAD");
    assert_eq!(spaced.path, "/a");
}

#[test]
fn resource_classification() {
    assert_eq!(ResourceType::new("res/index.html"), ResourceType::HTML);
    assert_eq!(ResourceType::new("a.b.js"), ResourceType::JS);
    assert_eq!(ResourceType::new("style.css"), ResourceType::CSS);
    assert_eq!(ResourceType::new("favicon.ico"), ResourceType::ICO);
    assert_eq!(ResourceType::new("feed.xml"), ResourceType::XML);
    assert_eq!(ResourceType::new("picture.png"), ResourceType::UNKNOWN);
    assert_eq!(ResourceType::new("html"), ResourceType::HTML);
    assert_eq!(ResourceType::new("file.HTML"), ResourceType::UNKNOWN);
    assert_eq!(ResourceType::new("dir.html/"), ResourceType::UNKNOWN);
    assert_eq!(ResourceType::new(""), ResourceType::UNKNOWN);
}

#[test]
fn mime_types() {
    assert_eq!(ResourceType::HTML.get_mime_type(), "text/html");
    assert_eq!(ResourceType::JS.get_mime_type(), "text/javascript");
    assert_eq!(ResourceType::CSS.get_mime_type(), "text/css");
    assert_eq!(ResourceType::ICO.get_mime_type(), "image/x-icon");
    assert_eq!(ResourceType::XML.get_mime_type(), "application/xml");
    assert_eq!(ResourceType::UNKNOWN.get_mime_type(), "text/plain");
}

#[test]
fn resource_paths_and_loading() {
    assert_eq!(Resource::file_path("/"), "res/index.html");
    assert_eq!(Resource::file_path("/app.js"), "res/app.js");
    assert_eq!(Resource::file_path("//"), "res//");
    let r = Resource::new("/", Some(vec![1u8])).unwrap();
    assert_eq!(r.data, vec![1u8]);
    assert_eq!(r.resource_type, ResourceType::HTML);
    assert!(Resource::new("/missing.png", None).is_none());
}

#[test]
fn scenario_first_request_for_root() {
    let cache = AsyncCache::new();
    let path = String::from("/");
    let file = b"<p>hi</p>\n".to_vec();
    assert_eq!(file.len(), 10);
    let step = after_cache_check(&path, cache.get_data(&path));
    assert_eq!(step, Step::Load(String::from("res/index.html")));
    let response = match after_load(&path, Some(file.clone())) {
        Step::WriteAndCache(bytes) => bytes,
        other => panic!("unexpected step {:?}", other),
    };
    let expected = [
        b"HTTP/2.0 200 OK\r\nContent-Type: text/html\r\nContent-Length: 10\r\n\r\n".to_vec(),
        file,
    ]
    .concat();
    assert_eq!(response, expected);
    assert!(!contains(&response, b"Content-Encoding"));
    cache.set_data(&path, &response);
    assert_eq!(cache.get_data(&path), Some(expected));
}

#[test]
fn scenario_repeated_request_hits_cache() {
    let cache = AsyncCache::new();
    let path = String::from("/");
    let first = match after_load(&path, Some(b"0123456789".to_vec())) {
        Step::WriteAndCache(bytes) => bytes,
        other => panic!("unexpected step {:?}", other),
    };
    cache.set_data(&path, &first);
    let again = after_cache_check(&path, cache.get_data(&path));
    assert_eq!(again, Step::Write(first));
}

#[test]
fn scenario_missing_file() {
    let cache = AsyncCache::new();
    let path = String::from("/missing.png");
    let step = after_cache_check(&path, cache.get_data(&path));
    assert_eq!(step, Step::Load(String::from("res/missing.png")));
    assert_eq!(after_load(&path, None), Step::Close);
    assert_eq!(cache.get_data(&path), None);
}

#[test]
fn large_file_is_served_compressed() {
    let path = String::from("/big.xml");
    let data: Vec<u8> = vec![b'<'; 3000];
    let bytes = match after_load(&path, Some(data.clone())) {
        Step::WriteAndCache(bytes) => bytes,
        other => panic!("unexpected step {:?}", other),
    };
    assert!(contains(&bytes, b"Content-Encoding: gzip\r\n"));
    assert!(contains(&bytes, b"Content-Type: application/xml\r\n"));
    let split = bytes.windows(4).position(|w| w == b"\r\n\r\n").unwrap() + 4;
    let body = &bytes[split..];
    let declared = format!("Content-Length: {}\r\n", body.len());
    assert!(contains(&bytes[..split], declared.as_bytes()));
    assert_eq!(gunzip(body), data);
}
