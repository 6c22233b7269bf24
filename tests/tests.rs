use bt_http_utils::HttpClient;
use bt_logger::{build_logger, LogLevel, LogTarget};

fn header_value<'a>(headers: &'a [(String, String)], name: &str) -> Option<&'a str> {
    headers.iter().find(|(k, _)| k == name).map(|(_, v)| v.as_str())
}

#[test]
fn test_set_headers() {
    let header_val = "HEADER_VALUE";
    let header_name = "bt_header";

    build_logger("BACHUETECH", "BT.HTTP.UTILS", LogLevel::VERBOSE, LogTarget::STD_ERROR, None);
    let mut http_client = HttpClient::new(false, true, None, Vec::new()).unwrap();
    http_client.set_header(&header_name, &header_val).unwrap();

    println!("Headers: {:?}", &http_client.get_default_headers());
    assert_eq!(header_value(&http_client.get_default_headers(), header_name).unwrap(), header_val);
}

#[test]
fn test_change_headers() {
    let header_val = "HEADER_VALUE";
    let header_name = "user-agent";

    build_logger("BACHUETECH", "BT.HTTP.UTILS", LogLevel::VERBOSE, LogTarget::STD_ERROR, None);
    let mut http_client = HttpClient::new(false, true, None, Vec::new()).unwrap();
    http_client.set_header(&header_name, &header_val).unwrap();

    println!("Headers: {:?}", &http_client.get_default_headers());
    assert_eq!(header_value(&http_client.get_default_headers(), header_name).unwrap(), header_val);
}

#[test]
fn test_set_headers_nc() {
    let header_val = "HEADER_VALUE";
    let header_name = "bt_header";

    build_logger("BACHUETECH", "BT.HTTP.UTILS", LogLevel::VERBOSE, LogTarget::STD_ERROR, None);
    let mut http_client = HttpClient::new(false, false, None, Vec::new()).unwrap();
    http_client.set_header(&header_name, &header_val).unwrap();

    println!("Headers: {:?}", &http_client.get_default_headers());
    assert_eq!(header_value(&http_client.get_default_headers(), header_name).unwrap(), header_val);
}

#[test]
fn test_change_headers_nc() {
    let header_val = "HEADER_VALUE";
    let header_name = "user-agent";

    build_logger("BACHUETECH", "BT.HTTP.UTILS", LogLevel::VERBOSE, LogTarget::STD_ERROR, None);
    let mut http_client = HttpClient::new(false, false, None, Vec::new()).unwrap();
    http_client.set_header(&header_name, &header_val).unwrap();

    println!("Headers: {:?}", &http_client.get_default_headers());
    assert_eq!(header_value(&http_client.get_default_headers(), header_name).unwrap(), header_val);
}
