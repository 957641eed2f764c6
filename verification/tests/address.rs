use backend_supervisor::address::{base_url, default_url, health_url, port_text};

#[test]
fn port_text_is_the_decimal_numeral() {
    assert_eq!(port_text(0), "0");
    assert_eq!(port_text(7), "7");
    assert_eq!(port_text(10), "10");
    assert_eq!(port_text(8000), "8000");
    assert_eq!(port_text(49152), "49152");
    assert_eq!(port_text(65535), "65535");
}

#[test]
fn port_text_agrees_with_the_standard_rendering() {
    let mut port: u16 = 0;
    loop {
        assert_eq!(port_text(port), port.to_string());
        if port == u16::MAX {
            break;
        }
        port += 1;
    }
}

#[test]
fn base_url_has_host_port_and_trailing_slash() {
    assert_eq!(base_url(8000), "http://127.0.0.1:8000/");
    assert_eq!(base_url(49152), "http://127.0.0.1:49152/");
    assert_eq!(base_url(1), "http://127.0.0.1:1/");
}

#[test]
fn health_url_names_the_health_endpoint() {
    assert_eq!(health_url(8000), "http://127.0.0.1:8000/api/health");
    assert_eq!(health_url(65535), "http://127.0.0.1:65535/api/health");
}

#[test]
fn default_url_has_no_trailing_slash() {
    assert_eq!(default_url(), "http://127.0.0.1:8000");
}
