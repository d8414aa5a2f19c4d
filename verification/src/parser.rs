//! Parsing a raw HTTP request: the request line split into its three
//! tokens, and the header lines folded into the header table.
use vstd::prelude::*;

use crate::headers::{spec_to_headers, to_headers};
use crate::request::{Method, Request, RequestLine};
use crate::strutil::{spec_split_ws, split_ws};

verus! {

/// Why a raw request was refused.
#[derive(Debug, Clone, Copy, PartialEq, Eq, Structural)]
pub enum ParseError {
    /// No request line was handed over at all.
    EmptyRequest,
    /// The request line does not consist of exactly three tokens.
    InvalidRequestLine,
    /// The method token names a method the server does not recognise.
    InvalidMethod,
}

/// Recognise a method token; only GET is a valid method.
pub fn parse_method(x: &str) -> (r: Option<Method>)
    ensures
        r == (if x@ == "GET"@ {
            Some(Method::GET)
        } else {
            None::<Method>
        }),
{
    if x.to_owned() == "GET".to_owned() {
        Some(Method::GET)
    } else {
        None
    }
}

/// Parse a request line: it must split on whitespace into exactly a
/// recognised method, a URI and a version, in that order.
pub fn parse_request_line(line: String) -> (r: Result<RequestLine, ParseError>)
    ensures
        r is Ok <==> (spec_split_ws(line@).len() == 3 && spec_split_ws(line@)[0] == "GET"@),
        r matches Ok(rl) ==> {
            &&& rl.spec_method() == Method::GET
            &&& rl.spec_uri() == spec_split_ws(line@)[1]
            &&& rl.spec_version() == spec_split_ws(line@)[2]
        },
        r matches Err(e) ==> e == (if spec_split_ws(line@).len() != 3 {
            ParseError::InvalidRequestLine
        } else {
            ParseError::InvalidMethod
        }),
{
    let splitted = split_ws(line.as_str());
    if splitted.len() == 3 {
        proof {
            assert(splitted.deep_view()[0] == splitted@[0]@);
            assert(splitted.deep_view()[1] == splitted@[1]@);
            assert(splitted.deep_view()[2] == splitted@[2]@);
        }
        match parse_method(splitted[0].as_str()) {
            Some(method) => Ok(
                RequestLine::new(method, splitted[1].clone(), splitted[2].clone()),
            ),
            None => Err(ParseError::InvalidMethod),
        }
    } else {
        Err(ParseError::InvalidRequestLine)
    }
}

/// The prefix of `lines` before its first empty line: the header lines
/// of a request, which ends at the blank line HTTP requires.
pub open spec fn spec_take_until_empty(lines: Seq<Seq<char>>) -> Seq<Seq<char>>
    decreases lines.len(),
{
    if lines.len() == 0 || lines[0].len() == 0 {
        Seq::empty()
    } else {
        seq![lines[0]] + spec_take_until_empty(lines.skip(1))
    }
}

/// Parse a raw request: the first line as the request line, the
/// following lines up to the first empty one as headers. GET requests
/// carry no body, so the parsed request's body is always absent.
pub fn parse(lines: &Vec<String>) -> (r: Result<Request, ParseError>)
    ensures
        r is Ok <==> (lines.deep_view().len() > 0 && spec_split_ws(lines.deep_view()[0]).len() == 3
            && spec_split_ws(lines.deep_view()[0])[0] == "GET"@),
        r matches Ok(req) ==> {
            &&& req.spec_method() == Method::GET
            &&& req.spec_uri() == spec_split_ws(lines.deep_view()[0])[1]
            &&& req.spec_version() == spec_split_ws(lines.deep_view()[0])[2]
            &&& req.spec_headers() == spec_to_headers(
                spec_take_until_empty(lines.deep_view().skip(1)),
            )
            &&& req.spec_data() is None
        },
        r matches Err(e) ==> e == (if lines.deep_view().len() == 0 {
            ParseError::EmptyRequest
        } else if spec_split_ws(lines.deep_view()[0]).len() != 3 {
            ParseError::InvalidRequestLine
        } else {
            ParseError::InvalidMethod
        }),
{
    if lines.len() == 0 {
        return Err(ParseError::EmptyRequest);
    }
    proof {
        assert(lines.deep_view()[0] == lines@[0]@);
    }
    match parse_request_line(lines[0].clone()) {
        Ok(parsed) => {
            let n = lines.len();
            let mut hdr_lines: Vec<String> = Vec::new();
            let mut i: usize = 1;
            proof {
                assert(hdr_lines.deep_view() + spec_take_until_empty(lines.deep_view().skip(1))
                    =~~= spec_take_until_empty(lines.deep_view().skip(1)));
            }
            while i < n && !lines[i].as_str().is_empty()
                invariant
                    1 <= i <= n,
                    n == lines@.len(),
                    hdr_lines.deep_view() + spec_take_until_empty(lines.deep_view().skip(i as int))
                        == spec_take_until_empty(lines.deep_view().skip(1)),
                decreases n - i,
            {
                proof {
                    assert(lines.deep_view().skip(i as int)[0] == lines@[i as int]@);
                    assert(lines.deep_view().skip(i as int).skip(1) =~~= lines.deep_view().skip(
                        i + 1,
                    ));
                }
                hdr_lines.push(lines[i].clone());
                proof {
                    assert(hdr_lines.deep_view() + spec_take_until_empty(
                        lines.deep_view().skip(i + 1),
                    ) =~~= spec_take_until_empty(lines.deep_view().skip(1)));
                }
                i = i + 1;
            }
            proof {
                if i < n {
                    assert(lines.deep_view().skip(i as int)[0] == lines@[i as int]@);
                }
                assert(spec_take_until_empty(lines.deep_view().skip(i as int)) =~~= Seq::<
                    Seq<char>,
                >::empty());
                assert(hdr_lines.deep_view() =~~= spec_take_until_empty(
                    lines.deep_view().skip(1),
                ));
            }
            let headers = to_headers(hdr_lines);
            Ok(Request::new(parsed, headers, None))
        },
        Err(e) => Err(e),
    }
}

} // verus!
