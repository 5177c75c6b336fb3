use threadpool::http::{route, Route};

#[test]
fn root_is_hello() {
    let r = route(&"GET / HTTP/1.1".to_string());
    assert_eq!(r, Route::Hello);
    assert_eq!(r.status_line(), "HTTP/1.1 200 OK");
    assert_eq!(r.page(), "hello.html");
    assert!(!r.delays());
}

#[test]
fn sleep_is_slow_hello() {
    let r = route(&"GET /sleep HTTP/1.1".to_string());
    assert_eq!(r, Route::SlowHello);
    assert_eq!(r.status_line(), "HTTP/1.1 200 OK");
    assert_eq!(r.page(), "hello.html");
    assert!(r.delays());
}

#[test]
fn other_lines_are_not_found() {
    for line in ["GET /other HTTP/1.1", "", "GET / HTTP/1.0", "POST / HTTP/1.1"] {
        let r = route(&line.to_string());
        assert_eq!(r, Route::NotFound);
        assert_eq!(r.status_line(), "HTTP/1.1 400 NOT FOUND");
        assert_eq!(r.page(), "404.html");
        assert!(!r.delays());
    }
}
