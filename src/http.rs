use vstd::prelude::*;

verus! {

/// What a request line asks the demo server for.
#[derive(Debug, Clone, Copy, PartialEq, Eq, Structural)]
pub enum Route {
    /// `GET /`: the greeting page.
    Hello,
    /// `GET /sleep`: the greeting page, after a delay.
    SlowHello,
    /// Anything else.
    NotFound,
}

/// The route that a request line selects.
pub open spec fn route_of(line: Seq<char>) -> Route {
    if line == "GET / HTTP/1.1"@ {
        Route::Hello
    } else if line == "GET /sleep HTTP/1.1"@ {
        Route::SlowHello
    } else {
        Route::NotFound
    }
}

/// Selects the route of a request line; only the two exact lines are known.
pub fn route(line: &String) -> (r: Route)
    ensures
        r == route_of(line@),
{
    let hello = "GET / HTTP/1.1".to_owned();
    let slow = "GET /sleep HTTP/1.1".to_owned();
    proof {
        reveal_strlit("GET / HTTP/1.1");
        reveal_strlit("GET /sleep HTTP/1.1");
    }
    if line.eq(&hello) {
        Route::Hello
    } else if line.eq(&slow) {
        Route::SlowHello
    } else {
        Route::NotFound
    }
}

impl Route {
    /// The status line of the response.
    pub fn status_line(&self) -> (r: &'static str)
        ensures
            *self is NotFound ==> r@ == "HTTP/1.1 400 NOT FOUND"@,
            !(*self is NotFound) ==> r@ == "HTTP/1.1 200 OK"@,
    {
        match self {
            Route::NotFound => "HTTP/1.1 400 NOT FOUND",
            _ => "HTTP/1.1 200 OK",
        }
    }

    /// The file whose contents form the body of the response.
    pub fn page(&self) -> (r: &'static str)
        ensures
            *self is NotFound ==> r@ == "404.html"@,
            !(*self is NotFound) ==> r@ == "hello.html"@,
    {
        match self {
            Route::NotFound => "404.html",
            _ => "hello.html",
        }
    }

    /// The response is held back before it is sent.
    pub fn delays(&self) -> (r: bool)
        ensures
            r <==> *self is SlowHello,
    {
        match self {
            Route::SlowHello => true,
            _ => false,
        }
    }
}

} // verus!
