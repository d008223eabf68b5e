//! The four outcome classes of a call, and the table of business codes.

use vstd::prelude::*;

verus! {

/// The error of one call: exactly one class, fixed when it is made.
#[derive(Debug, Clone, PartialEq, Eq)]
pub enum BpiError {
    /// The transport failed: connect, TLS, timeout, or reading the body.
    Network { message: String },
    /// The server answered with a status outside 200..=299.
    Http { status: u16 },
    /// The body was not a well-formed envelope of the expected shape.
    Parse { line: usize, column: usize, message: String },
    /// The envelope carried a nonzero business code.
    Api { code: i32, message: String },
    /// A state-changing call found no session credential.
    MissingCredential,
}

/// Text of the business codes that the API documents; `None` for the others.
pub open spec fn known_code_text(code: i32) -> Option<Seq<char>> {
    if code == -1 {
        Some("应用程序不存在或已被封禁"@)
    } else if code == -2 {
        Some("Access Key 错误"@)
    } else if code == -3 {
        Some("API 校验密匙错误"@)
    } else if code == -4 {
        Some("调用方对该 Method 没有权限"@)
    } else if code == -101 {
        Some("账号未登录"@)
    } else if code == -102 {
        Some("账号被封停"@)
    } else if code == -111 {
        Some("csrf 校验失败"@)
    } else if code == -400 {
        Some("请求错误"@)
    } else if code == -403 {
        Some("访问权限不足"@)
    } else if code == -404 {
        Some("啥都木有"@)
    } else if code == -412 {
        Some("请求被拦截"@)
    } else if code == -500 {
        Some("服务器错误"@)
    } else if code == -503 {
        Some("过载保护，服务暂不可用"@)
    } else if code == -509 {
        Some("请求过于频繁"@)
    } else if code == -799 {
        Some("请求过于频繁，请稍后再试"@)
    } else {
        None
    }
}

/// The message that the code table gives for `code`.
pub open spec fn code_text(code: i32) -> Seq<char> {
    match known_code_text(code) {
        Some(t) => t,
        None => "未知错误"@,
    }
}

/// Looks `code` up in the table of business codes.
pub fn code_message(code: i32) -> (r: String)
    ensures
        r@ == code_text(code),
{
    let t: &str = if code == -1 {
        "应用程序不存在或已被封禁"
    } else if code == -2 {
        "Access Key 错误"
    } else if code == -3 {
        "API 校验密匙错误"
    } else if code == -4 {
        "调用方对该 Method 没有权限"
    } else if code == -101 {
        "账号未登录"
    } else if code == -102 {
        "账号被封停"
    } else if code == -111 {
        "csrf 校验失败"
    } else if code == -400 {
        "请求错误"
    } else if code == -403 {
        "访问权限不足"
    } else if code == -404 {
        "啥都木有"
    } else if code == -412 {
        "请求被拦截"
    } else if code == -500 {
        "服务器错误"
    } else if code == -503 {
        "过载保护，服务暂不可用"
    } else if code == -509 {
        "请求过于频繁"
    } else if code == -799 {
        "请求过于频繁，请稍后再试"
    } else {
        "未知错误"
    };
    t.to_owned()
}

impl BpiError {
    /// A network failure carrying the transport's description.
    pub fn network(message: String) -> (r: BpiError)
        ensures
            r == (BpiError::Network { message }),
    {
        BpiError::Network { message }
    }

    /// An HTTP failure carrying the status.
    pub fn http(status: u16) -> (r: BpiError)
        ensures
            r == (BpiError::Http { status }),
    {
        BpiError::Http { status }
    }

    /// A business failure whose message comes from the code table.
    pub fn from_code(code: i32) -> (r: BpiError)
        ensures
            r is Api,
            r->Api_code == code,
            r->Api_message@ == code_text(code),
    {
        BpiError::Api { code, message: code_message(code) }
    }

    /// A business failure with the message that the server sent.
    pub fn from_code_message(code: i32, message: String) -> (r: BpiError)
        ensures
            r == (BpiError::Api { code, message }),
    {
        BpiError::Api { code, message }
    }

    /// The business code, for a business failure.
    pub fn code(&self) -> (r: Option<i32>)
        ensures
            r == (match self {
                BpiError::Api { code, .. } => Some(*code),
                _ => None,
            }),
    {
        match self {
            BpiError::Api { code, .. } => Some(*code),
            _ => None,
        }
    }
}

} // verus!
