//! Error codes that the protocol defines for responses.

use vstd::prelude::*;
use vstd::string::StringSliceAdditionalSpecFns;
use crate::json::{DecodeError, JVal, Json, JsonCodec};
use crate::pascal::{bytes_equal, decimal, fmt_pascal_case, fmt_pascal_case_const, pascal_case, pascal_chars, pascal_words, tuple_text};

verus! {

/// An error code of a response, as the protocol defines them.
#[derive(Clone, Copy, Debug, PartialEq, Eq, PartialOrd, Ord, Structural)]
pub struct ErrorCode(pub i32);

impl ErrorCode {
    /// The server received a request before `initialize`; kept in the JSON-RPC reserved range for compatibility.
    #[allow(non_snake_case)]
    pub fn SERVER_NOT_INITIALIZED() -> (r: ErrorCode)
        ensures
            r.0 == -32002,
    {
        ErrorCode(-32002)
    }

    /// An error without a more specific code; kept in the JSON-RPC reserved range for compatibility.
    #[allow(non_snake_case)]
    pub fn UNKNOWN_ERROR_CODE() -> (r: ErrorCode)
        ensures
            r.0 == -32001,
    {
        ErrorCode(-32001)
    }

    /// The start of the range of error codes reserved for the protocol. Not a real error code.
    #[allow(non_snake_case)]
    pub fn LSP_RESERVED_ERROR_RANGE_START() -> (r: ErrorCode)
        ensures
            r.0 == -32899,
    {
        ErrorCode(-32899)
    }

    /// A request failed although it was syntactically correct.
    #[allow(non_snake_case)]
    pub fn REQUEST_FAILED() -> (r: ErrorCode)
        ensures
            r.0 == -32803,
    {
        ErrorCode(-32803)
    }

    /// The server cancelled the request.
    #[allow(non_snake_case)]
    pub fn SERVER_CANCELLED() -> (r: ErrorCode)
        ensures
            r.0 == -32802,
    {
        ErrorCode(-32802)
    }

    /// The content of a document was modified outside normal conditions.
    #[allow(non_snake_case)]
    pub fn CONTENT_MODIFIED() -> (r: ErrorCode)
        ensures
            r.0 == -32801,
    {
        ErrorCode(-32801)
    }

    /// The client cancelled a request and the server detected it.
    #[allow(non_snake_case)]
    pub fn REQUEST_CANCELLED() -> (r: ErrorCode)
        ensures
            r.0 == -32800,
    {
        ErrorCode(-32800)
    }

    /// The name of the well-known constant with value `n`, if there is one.
    pub open spec fn name_of(n: i32) -> Option<&'static str> {
        if n == -32002 {
            Some("SERVER_NOT_INITIALIZED")
        } else if n == -32001 {
            Some("UNKNOWN_ERROR_CODE")
        } else if n == -32899 {
            Some("LSP_RESERVED_ERROR_RANGE_START")
        } else if n == -32803 {
            Some("REQUEST_FAILED")
        } else if n == -32802 {
            Some("SERVER_CANCELLED")
        } else if n == -32801 {
            Some("CONTENT_MODIFIED")
        } else if n == -32800 {
            Some("REQUEST_CANCELLED")
        } else {
            None
        }
    }

    /// The name of the well-known constant with this value, if there is one.
    pub fn name(&self) -> (r: Option<&'static str>)
        ensures
            r == Self::name_of(self.0),
    {
        match self.0 {
            -32002 => Some("SERVER_NOT_INITIALIZED"),
            -32001 => Some("UNKNOWN_ERROR_CODE"),
            -32899 => Some("LSP_RESERVED_ERROR_RANGE_START"),
            -32803 => Some("REQUEST_FAILED"),
            -32802 => Some("SERVER_CANCELLED"),
            -32801 => Some("CONTENT_MODIFIED"),
            -32800 => Some("REQUEST_CANCELLED"),
            _ => None,
        }
    }

    /// The rendering used in diagnostics: the constant's name in PascalCase,
    /// or `ErrorCode(n)` for a value without a name.
    pub fn debug_text(&self) -> (r: String)
        ensures
            match Self::name_of(self.0) {
                Some(s) => r@ == pascal_words(s@, 0, true) && r@ == pascal_chars(s@, 0, true),
                None => r@ == "ErrorCode"@ + seq!['('] + decimal(self.0 as int) + seq![')'],
            },
    {
        match self.0 {
            -32002 => {
                proof {
                    reveal_strlit("SERVER_NOT_INITIALIZED");
                }
                fmt_pascal_case("SERVER_NOT_INITIALIZED")
            },
            -32001 => {
                proof {
                    reveal_strlit("UNKNOWN_ERROR_CODE");
                }
                fmt_pascal_case("UNKNOWN_ERROR_CODE")
            },
            -32899 => {
                proof {
                    reveal_strlit("LSP_RESERVED_ERROR_RANGE_START");
                }
                fmt_pascal_case("LSP_RESERVED_ERROR_RANGE_START")
            },
            -32803 => {
                proof {
                    reveal_strlit("REQUEST_FAILED");
                }
                fmt_pascal_case("REQUEST_FAILED")
            },
            -32802 => {
                proof {
                    reveal_strlit("SERVER_CANCELLED");
                }
                fmt_pascal_case("SERVER_CANCELLED")
            },
            -32801 => {
                proof {
                    reveal_strlit("CONTENT_MODIFIED");
                }
                fmt_pascal_case("CONTENT_MODIFIED")
            },
            -32800 => {
                proof {
                    reveal_strlit("REQUEST_CANCELLED");
                }
                fmt_pascal_case("REQUEST_CANCELLED")
            },
            _ => tuple_text("ErrorCode", self.0),
        }
    }

    /// The value of the well-known constant whose name, in PascalCase, is `b`.
    pub open spec fn value_of_pascal(b: Seq<u8>) -> Option<i32> {
        if b == pascal_case("SERVER_NOT_INITIALIZED".spec_bytes()) {
            Some(-32002i32)
        } else if b == pascal_case("UNKNOWN_ERROR_CODE".spec_bytes()) {
            Some(-32001i32)
        } else if b == pascal_case("LSP_RESERVED_ERROR_RANGE_START".spec_bytes()) {
            Some(-32899i32)
        } else if b == pascal_case("REQUEST_FAILED".spec_bytes()) {
            Some(-32803i32)
        } else if b == pascal_case("SERVER_CANCELLED".spec_bytes()) {
            Some(-32802i32)
        } else if b == pascal_case("CONTENT_MODIFIED".spec_bytes()) {
            Some(-32801i32)
        } else if b == pascal_case("REQUEST_CANCELLED".spec_bytes()) {
            Some(-32800i32)
        } else {
            None
        }
    }

    /// Reads the PascalCase rendering of a well-known constant's name (`ServerNotInitialized`).
    pub fn from_pascal_name(value: &str) -> (r: Option<ErrorCode>)
        ensures
            match Self::value_of_pascal(value.spec_bytes()) {
                Some(n) => r == Some(ErrorCode(n)),
                None => r is None,
            },
    {
        let b = value.as_bytes();
        if bytes_equal(b, fmt_pascal_case_const("SERVER_NOT_INITIALIZED").as_slice()) {
            return Some(ErrorCode(-32002));
        }
        if bytes_equal(b, fmt_pascal_case_const("UNKNOWN_ERROR_CODE").as_slice()) {
            return Some(ErrorCode(-32001));
        }
        if bytes_equal(b, fmt_pascal_case_const("LSP_RESERVED_ERROR_RANGE_START").as_slice()) {
            return Some(ErrorCode(-32899));
        }
        if bytes_equal(b, fmt_pascal_case_const("REQUEST_FAILED").as_slice()) {
            return Some(ErrorCode(-32803));
        }
        if bytes_equal(b, fmt_pascal_case_const("SERVER_CANCELLED").as_slice()) {
            return Some(ErrorCode(-32802));
        }
        if bytes_equal(b, fmt_pascal_case_const("CONTENT_MODIFIED").as_slice()) {
            return Some(ErrorCode(-32801));
        }
        if bytes_equal(b, fmt_pascal_case_const("REQUEST_CANCELLED").as_slice()) {
            return Some(ErrorCode(-32800));
        }
        None
    }
}

/// Written as the bare integer; every integer in range decodes, known or not.
impl JsonCodec for ErrorCode {
    type Model = ErrorCode;

    open spec fn model(&self) -> ErrorCode {
        *self
    }

    open spec fn encode(m: ErrorCode) -> JVal {
        JVal::Num(m.0 as int)
    }

    open spec fn decode(j: JVal) -> Result<ErrorCode, DecodeError> {
        match i32::decode(j) {
            Ok(n) => Ok(ErrorCode(n)),
            Err(e) => Err(e),
        }
    }

    open spec fn valid(m: ErrorCode) -> bool {
        true
    }

    fn to_json(&self) -> (r: Json) {
        self.0.to_json()
    }

    fn from_json(j: &Json) -> (r: Result<ErrorCode, DecodeError>) {
        match i32::from_json(j) {
            Ok(n) => Ok(ErrorCode(n)),
            Err(e) => Err(e),
        }
    }

    proof fn lemma_round_trip(m: ErrorCode) {
    }
}

/// The end of the range of error codes reserved for the protocol. Not a real error code.
#[allow(non_snake_case)]
pub fn LSP_RESERVED_ERROR_RANGE_END() -> (r: ErrorCode)
    ensures
        r.0 == -32800,
{
    ErrorCode(-32800)
}

} // verus!
