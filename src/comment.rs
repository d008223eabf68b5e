//! Data shapes of the comment endpoints.

use vstd::prelude::*;

verus! {

/// Paging of a comment list.
#[derive(Debug, Clone)]
pub struct PageInfo {
    /// The current page.
    pub num: u64,
    /// Entries per page.
    pub size: u64,
    /// Root comments in all.
    pub count: u64,
    /// Comments in all.
    pub acount: Option<u64>,
}

/// Membership of the paid tier.
#[derive(Debug, Clone)]
pub struct Vip {
    pub vip_type: i64,
    pub vip_due_date: i64,
    pub due_remark: String,
    pub access_status: i64,
    pub vip_status: i64,
    pub vip_status_warn: String,
    pub theme_type: i64,
    pub avatar_subscript: i64,
    pub nickname_color: String,
}

/// A fan medal.
#[derive(Debug, Clone)]
pub struct FansDetail {
    pub uid: u64,
    pub medal_id: u64,
    pub medal_name: String,
    pub score: Option<u64>,
    pub level: u64,
    pub intimacy: Option<u64>,
    pub master_status: Option<u64>,
    pub is_receive: Option<u64>,
}

/// The decoration behind a comment.
#[derive(Debug, Clone)]
pub struct CardBg {
    pub id: u64,
    pub name: String,
    pub image: String,
    pub jump_url: Option<String>,
    pub fan: Option<FanInfo>,
    /// `suit` or `vip_suit`; the JSON key is `type`.
    pub kind: String,
}

/// A fan-only decoration.
#[derive(Debug, Clone)]
pub struct FanInfo {
    /// 1 for a fan, else 0.
    pub is_fan: u64,
    pub number: u64,
    pub color: String,
    pub name: String,
    pub num_desc: String,
}

/// An emote.
#[derive(Debug, Clone)]
pub struct Emote {
    pub id: u64,
    pub package_id: u64,
    pub state: u64,
    /// 1 free, 2 members only, 3 bought, 4 kaomoji; the JSON key is `type`.
    pub kind: u64,
    pub attr: Option<u64>,
    /// The escape text that stands for the emote.
    pub text: String,
    pub url: String,
    pub meta: Option<EmoteMeta>,
    pub mtime: Option<u64>,
    pub jump_title: Option<String>,
}

/// A highlighted link in a comment.
#[derive(Debug, Clone)]
pub struct JumpUrl {
    pub title: Option<String>,
    pub state: Option<u64>,
    pub prefix_icon: Option<String>,
    pub app_url_schema: Option<String>,
    pub app_name: Option<String>,
    pub app_package_name: Option<String>,
    pub click_report: Option<String>,
}

/// Attributes of an emote.
#[derive(Debug, Clone)]
pub struct EmoteMeta {
    /// 1 small, 2 large.
    pub size: Option<u64>,
    pub alias: Option<String>,
}

/// Folding of a comment.
#[derive(Debug, Clone)]
pub struct Folder {
    pub has_folded: bool,
    pub is_folded: bool,
    /// Page of the folding rules.
    pub rule: String,
}

/// What the uploader did to a comment.
#[derive(Debug, Clone)]
pub struct UpAction {
    pub like: bool,
    pub reply: bool,
}

/// A label on a comment card.
#[derive(Debug, Clone)]
pub struct CardLabel {
    pub rpid: u64,
    pub text_content: String,
    pub text_color_day: String,
    pub text_color_night: String,
    pub label_color_day: String,
    pub label_color_night: String,
    pub image: Option<String>,
    /// The JSON key is `type`.
    pub kind: Option<u64>,
    pub background: Option<String>,
    pub background_width: Option<u64>,
    pub background_height: Option<u64>,
    pub jump_url: Option<String>,
    pub effect: Option<u64>,
    pub effect_start_time: Option<u64>,
}

/// Texts shown under a comment's replies.
#[derive(Debug, Clone)]
pub struct ReplyControl {
    pub sub_reply_entry_text: Option<String>,
    pub sub_reply_title_text: Option<String>,
    pub time_desc: Option<String>,
    pub location: Option<String>,
}

/// Settings of a comment section.
#[derive(Debug, Clone)]
pub struct Config {
    pub showtopic: u32,
    pub show_up_flag: bool,
    pub read_only: bool,
}

/// The owner of a comment section.
#[derive(Debug, Clone)]
pub struct Upper {
    pub mid: u32,
}

/// An advertisement in a comment section.
#[derive(Debug, Clone)]
pub struct CM {
    pub id: i64,
    pub contract_id: String,
    pub pos_num: i64,
    pub name: String,
    pub pic: String,
    pub litpic: String,
    pub url: String,
    pub style: i64,
    pub agency: String,
    pub label: String,
    pub intro: String,
    pub creative_type: i64,
    pub request_id: String,
    pub src_id: i64,
    pub area: i64,
    pub is_ad_loc: bool,
    pub ad_cb: String,
    pub title: String,
    pub server_type: i64,
    pub cm_mark: i64,
    pub stime: i64,
    pub mid: String,
    pub activity_type: i64,
    pub epid: i64,
    pub sub_title: String,
    pub ad_desc: String,
    pub adver_name: String,
    pub null_frame: bool,
    pub pic_main_color: String,
}

} // verus!
