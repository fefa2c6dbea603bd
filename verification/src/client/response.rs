//! Replies of the web API.
use vstd::prelude::*;

verus! {

/// The body of every reply: a code, whether it is an error, a message and,
/// on success, the data.
pub struct Reply<T> {
    pub code: i32,
    pub err: bool,
    pub msg: String,
    pub data: Option<T>,
}

/// The outcome a handler reports.
pub enum Status<T> {
    OK(Option<T>),
    Error(i32, String),
}

/// The code a reply carries for a failure of the service itself.
pub const SYSTEM_ERROR_CODE: i32 = 50000;

impl<T> Status<T> {
    /// The reply for the outcome: code 0 and message "OK" with the data on
    /// success; the given code and message, marked as an error and without
    /// data, on failure.
    pub fn to_reply(self) -> (r: Reply<T>)
        ensures
            match self {
                Status::OK(data) => {
                    &&& r.code == 0
                    &&& !r.err
                    &&& r.msg@ == "OK"@
                    &&& r.data == data
                },
                Status::Error(code, msg) => {
                    &&& r.code == code
                    &&& r.err
                    &&& r.msg@ == msg@
                    &&& r.data is None
                },
            },
    {
        let mut resp = Reply { code: 0, err: false, msg: "OK".to_owned(), data: None };
        match self {
            Status::OK(data) => {
                resp.data = data;
            },
            Status::Error(code, msg) => {
                resp.code = code;
                resp.err = true;
                resp.msg = msg;
            },
        }
        resp
    }
}

/// A successful handler result.
pub struct ApiOK<T>(pub Option<T>);

impl<T> ApiOK<T> {
    /// The reply sent for the result.
    pub fn into_reply(self) -> (r: Reply<T>)
        ensures
            r.code == 0,
            !r.err,
            r.msg@ == "OK"@,
            r.data == self.0,
    {
        let ApiOK(data) = self;
        Status::OK(data).to_reply()
    }
}

/// A failed handler result: an error with its own code and message, or a
/// failure of the service with an optional message.
pub enum ApiErr {
    Error(i32, String),
    ErrSystem(Option<String>),
}

/// The code and message a failed result is answered with.
pub open spec fn api_err_answer(e: ApiErr) -> (i32, Seq<char>) {
    match e {
        ApiErr::Error(code, msg) => (code, msg@),
        ApiErr::ErrSystem(Some(msg)) => (SYSTEM_ERROR_CODE, msg@),
        ApiErr::ErrSystem(None) => (SYSTEM_ERROR_CODE, "Internal error"@),
    }
}

impl ApiErr {
    /// The outcome the failure is reported as.
    pub fn to_status(self) -> (s: Status<()>)
        ensures
            s matches Status::Error(code, msg) && (code, msg@) == api_err_answer(self),
    {
        match self {
            ApiErr::Error(code, msg) => Status::Error(code, msg),
            ApiErr::ErrSystem(msg) => {
                let code = SYSTEM_ERROR_CODE;
                match msg {
                    Some(v) => Status::Error(code, v),
                    None => Status::Error(code, "Internal error".to_owned()),
                }
            },
        }
    }

    /// The reply sent for the failure: marked as an error, without data.
    pub fn into_reply(self) -> (r: Reply<()>)
        ensures
            (r.code, r.msg@) == api_err_answer(self),
            r.err,
            r.data is None,
    {
        self.to_status().to_reply()
    }
}

} // verus!
