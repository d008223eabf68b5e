//! Muting viewers of a live room: the payloads of the three endpoints, and
//! the forms that the calls post.

use vstd::prelude::*;
use crate::error::BpiError;

verus! {

/// A muted viewer.
#[derive(Debug, Clone)]
pub struct SilentUserInfo {
    /// The muted viewer's uid.
    pub tuid: i64,
    /// The muted viewer's nickname.
    pub tname: String,
    /// The uid of who muted them.
    pub uid: i64,
    /// The nickname of who muted them.
    pub name: String,
    /// When the mute was made.
    pub ctime: String,
    /// The mute record's id.
    pub id: i64,
    pub is_anchor: i32,
    /// The muted viewer's avatar.
    pub face: String,
    /// The rank of who muted them.
    pub admin_level: i32,
}

/// One page of a room's mute list.
#[derive(Debug, Clone)]
pub struct SilentUserListData {
    /// The muted viewers.
    pub data: Vec<SilentUserInfo>,
    /// How many viewers are muted.
    pub total: i32,
    /// How many pages the list has.
    pub total_page: i32,
}

/// Endpoint that mutes a viewer.
pub const ADD_SILENT_USER_URL: &'static str = "https://api.live.bilibili.com/xlive/web-ucenter/v1/banned/AddSilentUser";

/// Endpoint that lists a room's muted viewers.
pub const LIST_SILENT_USERS_URL: &'static str = "https://api.live.bilibili.com/xlive/web-ucenter/v1/banned/GetSilentUserList";

/// Endpoint that lifts a mute.
pub const DEL_SILENT_USER_URL: &'static str = "https://api.live.bilibili.com/xlive/web-ucenter/v1/banned/DelSilentUser";

/// The character of a decimal digit.
pub open spec fn digit_char(d: nat) -> char {
    seq!['0', '1', '2', '3', '4', '5', '6', '7', '8', '9'][d as int % 10]
}

/// The decimal digits of `n`, most significant first.
pub open spec fn digits(n: nat) -> Seq<char>
    decreases n,
{
    if n < 10 {
        seq![digit_char(n)]
    } else {
        digits(n / 10).push(digit_char(n % 10))
    }
}

/// `n` written in decimal, with a leading `-` when negative.
pub open spec fn decimal(n: int) -> Seq<char> {
    if n < 0 {
        seq!['-'] + digits((-n) as nat)
    } else {
        digits(n as nat)
    }
}

/// Relies on i64's Display: the number in decimal, `-` before a negative one.
#[verifier::external_body]
fn decimal_text(n: i64) -> (r: String)
    ensures
        r@ == decimal(n as int),
{
    n.to_string()
}

/// A form field as a name and a value.
pub type FieldView = (Seq<char>, Seq<char>);

/// The view of a form.
pub open spec fn form_view(f: Seq<(String, String)>) -> Seq<FieldView> {
    f.map_values(|e: (String, String)| (e.0@, e.1@))
}

/// The form that mutes viewer `tuid` in room `room_id` for `hour` hours
/// (`-1` for ever, `0` for the current broadcast).
pub open spec fn add_silent_user_form_spec(room_id: i64, tuid: i64, hour: i32, csrf: Seq<char>) -> Seq<FieldView> {
    seq![
        ("room_id"@, decimal(room_id as int)),
        ("tuid"@, decimal(tuid as int)),
        ("mobile_app"@, "web"@),
        ("type"@, "1"@),
        ("hour"@, decimal(hour as int)),
        ("csrf_token"@, csrf),
        ("csrf"@, csrf),
    ]
}

/// The form that asks for `ps` entries of room `room_id`'s mute list.
pub open spec fn list_silent_users_form_spec(room_id: i64, ps: i32, csrf: Seq<char>) -> Seq<FieldView> {
    seq![
        ("room_id"@, decimal(room_id as int)),
        ("ps"@, decimal(ps as int)),
        ("csrf_token"@, csrf),
        ("csrf"@, csrf),
    ]
}

/// The form that lifts mute record `id` in room `room_id`.
pub open spec fn del_silent_user_form_spec(room_id: i64, id: i64, csrf: Seq<char>) -> Seq<FieldView> {
    seq![
        ("room_id"@, decimal(room_id as int)),
        ("tuid"@, decimal(id as int)),
        ("csrf_token"@, csrf),
        ("csrf"@, csrf),
    ]
}

fn field(name: &str, value: String) -> (r: (String, String))
    ensures
        r.0@ == name@,
        r.1@ == value@,
{
    (name.to_owned(), value)
}

/// The form of a mute; without a session credential the call stops here.
pub fn add_silent_user_form(room_id: i64, tuid: i64, hour: i32, csrf: Option<String>) -> (r: Result<Vec<(String, String)>, BpiError>)
    ensures
        csrf is None ==> r == Err::<Vec<(String, String)>, BpiError>(BpiError::MissingCredential),
        csrf is Some ==> r is Ok && form_view(r->Ok_0@) == add_silent_user_form_spec(room_id, tuid, hour, csrf->Some_0@),
{
    let csrf = match csrf {
        Some(c) => c,
        None => return Err(BpiError::MissingCredential),
    };
    let form = vec![
        field("room_id", decimal_text(room_id)),
        field("tuid", decimal_text(tuid)),
        field("mobile_app", "web".to_owned()),
        field("type", "1".to_owned()),
        field("hour", decimal_text(hour as i64)),
        field("csrf_token", csrf.clone()),
        field("csrf", csrf),
    ];
    proof {
        assert(form_view(form@) =~= add_silent_user_form_spec(room_id, tuid, hour, form@[6].1@));
    }
    Ok(form)
}

/// The form of a mute-list query; without a session credential the call
/// stops here.
pub fn list_silent_users_form(room_id: i64, ps: i32, csrf: Option<String>) -> (r: Result<Vec<(String, String)>, BpiError>)
    ensures
        csrf is None ==> r == Err::<Vec<(String, String)>, BpiError>(BpiError::MissingCredential),
        csrf is Some ==> r is Ok && form_view(r->Ok_0@) == list_silent_users_form_spec(room_id, ps, csrf->Some_0@),
{
    let csrf = match csrf {
        Some(c) => c,
        None => return Err(BpiError::MissingCredential),
    };
    let form = vec![
        field("room_id", decimal_text(room_id)),
        field("ps", decimal_text(ps as i64)),
        field("csrf_token", csrf.clone()),
        field("csrf", csrf),
    ];
    proof {
        assert(form_view(form@) =~= list_silent_users_form_spec(room_id, ps, form@[3].1@));
    }
    Ok(form)
}

/// The form that lifts a mute; without a session credential the call stops
/// here.
pub fn del_silent_user_form(room_id: i64, id: i64, csrf: Option<String>) -> (r: Result<Vec<(String, String)>, BpiError>)
    ensures
        csrf is None ==> r == Err::<Vec<(String, String)>, BpiError>(BpiError::MissingCredential),
        csrf is Some ==> r is Ok && form_view(r->Ok_0@) == del_silent_user_form_spec(room_id, id, csrf->Some_0@),
{
    let csrf = match csrf {
        Some(c) => c,
        None => return Err(BpiError::MissingCredential),
    };
    let form = vec![
        field("room_id", decimal_text(room_id)),
        field("tuid", decimal_text(id)),
        field("csrf_token", csrf.clone()),
        field("csrf", csrf),
    ];
    proof {
        assert(form_view(form@) =~= del_silent_user_form_spec(room_id, id, form@[3].1@));
    }
    Ok(form)
}

} // verus!
