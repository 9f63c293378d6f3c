//! Raw feed documents and the typed events they are turned into.

use vstd::prelude::*;
use vstd::string::*;

use crate::live::error::LiveError;
use crate::live::interact::InteractPayload;
use crate::live::json::{
    element, json_model, json_pretty_text, json_text, member, parse, to_pretty_text, to_text,
    JsonModel,
};
use crate::live::rules;
use crate::live::rules::{
    DANMAKU_HEAD, DANMAKU_HEAD_COMMON, DANMAKU_HEAD_TIME, DANMAKU_TEXT, DANMAKU_WEALTH,
};
use crate::live::text::{decimal, decimal_string, same_text, str_view, text_of};

verus! {

/// Server timestamps below this value count whole seconds; from it on they
/// count milliseconds.
pub const SECONDS_THRESHOLD: u64 = 1_000_000_000_000;

/// A moment in milliseconds since the epoch, with the clock it was read from.
#[derive(Debug, Clone, Copy, PartialEq, Eq)]
pub struct Timestamp {
    pub ts: u64,
    pub from_server: bool,
}

impl Timestamp {
    /// The timestamp that a server value stands for: seconds are scaled to
    /// milliseconds, milliseconds are kept, and an absent value is an error.
    pub open spec fn server(timestamp: Option<u64>) -> Result<Timestamp, LiveError> {
        match timestamp {
            None => Err(LiveError::MissingField("timestamp")),
            Some(raw) => Ok(
                Timestamp {
                    ts: if raw < SECONDS_THRESHOLD {
                        (raw * 1000) as u64
                    } else {
                        raw
                    },
                    from_server: true,
                },
            ),
        }
    }

    /// The timestamp that a reading of the local clock stands for.
    pub open spec fn local(millis: u64) -> Timestamp {
        Timestamp { ts: millis, from_server: false }
    }

    /// The text form: the milliseconds in decimal, then `S` for a server
    /// timestamp and `C` for one of the local clock.
    pub open spec fn text(self) -> Seq<char> {
        decimal(self.ts as nat).push(if self.from_server { 'S' } else { 'C' })
    }

    /// Normalises a timestamp sent by the server.
    pub fn new_server(timestamp: Option<u64>) -> (r: Result<Self, LiveError>)
        ensures
            r == Self::server(timestamp),
            timestamp is None ==> r == Err::<Self, LiveError>(LiveError::MissingField("timestamp")),
            timestamp is Some ==> r is Ok && r->Ok_0.from_server,
            timestamp is Some && timestamp->Some_0 < SECONDS_THRESHOLD ==> r->Ok_0.ts
                == timestamp->Some_0 * 1000,
            timestamp is Some && timestamp->Some_0 >= SECONDS_THRESHOLD ==> r->Ok_0.ts
                == timestamp->Some_0,
    {
        match timestamp {
            None => Err(LiveError::MissingField("timestamp")),
            Some(raw) => {
                let ts = if raw < SECONDS_THRESHOLD {
                    raw * 1000
                } else {
                    raw
                };
                Ok(Timestamp { ts, from_server: true })
            },
        }
    }

    /// Tags a reading of the local clock, in milliseconds.
    pub fn at_local(millis: u64) -> (r: Self)
        ensures
            r == Self::local(millis),
    {
        Timestamp { ts: millis, from_server: false }
    }

    /// Reads the local clock.
    pub fn new_local() -> (r: Self)
        ensures
            !r.from_server,
    {
        Self::at_local(clock_millis())
    }

    /// Writes the timestamp as text.
    pub fn to_text(&self) -> (r: String)
        ensures
            r@ == self.text(),
    {
        let mut out = decimal_string(self.ts);
        proof {
            reveal_strlit("S");
            reveal_strlit("C");
        }
        if self.from_server {
            out.append("S");
        } else {
            out.append("C");
        }
        assert(out@ =~= self.text());
        out
    }
}

/// Who took part in an event.
#[derive(Debug, Clone, PartialEq, Eq)]
pub struct UserInfo {
    pub uid: u64,
    pub uname: String,
    pub face: Option<String>,
    pub medal_level: Option<i64>,
    pub medal_score: Option<i64>,
    pub wealth_level: Option<i64>,
}

/// What a `UserInfo` holds.
pub struct UserInfoView {
    pub uid: u64,
    pub uname: Seq<char>,
    pub face: Option<Seq<char>>,
    pub medal_level: Option<i64>,
    pub medal_score: Option<i64>,
    pub wealth_level: Option<i64>,
}

impl View for UserInfo {
    type V = UserInfoView;

    open spec fn view(&self) -> UserInfoView {
        UserInfoView {
            uid: self.uid,
            uname: self.uname@,
            face: text_of(self.face),
            medal_level: self.medal_level,
            medal_score: self.medal_score,
            wealth_level: self.wealth_level,
        }
    }
}

impl UserInfo {
    /// The user that six extracted values make: the id and the display name
    /// are required, in that order; the rest is kept as it is.
    pub open spec fn built(
        uid: Option<u64>,
        uname: Option<Seq<char>>,
        face: Option<Seq<char>>,
        medal_level: Option<i64>,
        medal_score: Option<i64>,
        wealth_level: Option<i64>,
    ) -> Result<UserInfoView, LiveError> {
        if uid is None {
            Err(LiveError::MissingField("uid"))
        } else if uname is None {
            Err(LiveError::MissingField("display_name"))
        } else {
            Ok(
                UserInfoView {
                    uid: uid->Some_0,
                    uname: uname->Some_0,
                    face,
                    medal_level,
                    medal_score,
                    wealth_level,
                },
            )
        }
    }

    /// Assembles a user from values that a caller has already located.
    pub fn new(
        uid: Option<u64>,
        uname: Option<&str>,
        face: Option<&str>,
        medal_level: Option<i64>,
        medal_score: Option<i64>,
        wealth_level: Option<i64>,
    ) -> (r: Result<Self, LiveError>)
        ensures
            view_of_user(r) == Self::built(
                uid,
                str_view(uname),
                str_view(face),
                medal_level,
                medal_score,
                wealth_level,
            ),
            uid is Some && uname is None ==> r == Err::<Self, LiveError>(
                LiveError::MissingField("display_name"),
            ),
            uid is Some && uname is Some ==> r is Ok && r->Ok_0.uid == uid->Some_0
                && r->Ok_0.uname@ == uname->Some_0@ && text_of(r->Ok_0.face) == str_view(face)
                && r->Ok_0.medal_level == medal_level && r->Ok_0.medal_score == medal_score
                && r->Ok_0.wealth_level == wealth_level,
    {
        let uid = match uid {
            Some(uid) => uid,
            None => {
                return Err(LiveError::MissingField("uid"));
            },
        };
        let uname = match uname {
            Some(uname) => String::from_str(uname),
            None => {
                return Err(LiveError::MissingField("display_name"));
            },
        };
        let face = match face {
            Some(face) => Some(String::from_str(face)),
            None => None,
        };
        Ok(UserInfo { uid, uname, face, medal_level, medal_score, wealth_level })
    }
}

/// What the outcome of building a user holds.
pub open spec fn view_of_user(r: Result<UserInfo, LiveError>) -> Result<UserInfoView, LiveError> {
    match r {
        Ok(user) => Ok(user@),
        Err(e) => Err(e),
    }
}

/// The phase of a battle between two rooms.
#[derive(Debug, Clone, Copy, PartialEq, Eq)]
pub enum BattleStatus {
    Start,
    Process,
    End,
}

/// What a viewer did in the room.
#[derive(Debug, Clone, Copy, PartialEq, Eq)]
pub enum UserInteractType {
    JoinRoom,
    Subscribe,
    Share,
}

/// One event of the feed in typed form.
#[derive(Debug, Clone, PartialEq, Eq)]
pub enum LiveMessage {
    /// The broadcast went live.
    StreamStart { timestamp: Timestamp },
    /// The broadcast ended.
    StreamEnd { timestamp: Timestamp },
    /// A chat message; `extra` holds each key once.
    Danmaku { timestamp: Timestamp, user: UserInfo, text: String, extra: Vec<(String, String)> },
    /// A paid, pinned chat message.
    SuperChat { timestamp: Timestamp, user: UserInfo, price: i64, text: String },
    /// A gift.
    Gift {
        timestamp: Timestamp,
        user: UserInfo,
        gift_name: String,
        gift_count: i64,
        coin_type: String,
        total_coin: i64,
        img_basic: Option<String>,
        img_webp: Option<String>,
    },
    /// A like.
    Like { timestamp: Timestamp, user: UserInfo },
    /// The state of a battle, seen from the connected room.
    BattleInfo {
        timestamp: Timestamp,
        status: BattleStatus,
        opponent_room: String,
        host_votes: i64,
        opponent_votes: i64,
    },
    /// A viewer joined, followed or shared.
    UserInteract { timestamp: Timestamp, user: UserInfo, msg_type: UserInteractType },
    /// The count of viewers so far changed.
    WatchedChange { timestamp: Timestamp, count: i64 },
    /// An event of a kind that the library does not model, with its tag.
    Unsupported(String),
}

/// The mapping that a list of key and value pairs stands for; of two pairs
/// with one key the later counts.
pub open spec fn extra_map(entries: Seq<(String, String)>) -> Map<Seq<char>, Seq<char>>
    decreases entries.len(),
{
    if entries.len() == 0 {
        Map::empty()
    } else {
        extra_map(entries.drop_last()).insert(entries.last().0@, entries.last().1@)
    }
}

/// Whether no key occurs twice in a list of key and value pairs.
pub open spec fn keys_distinct(entries: Seq<(String, String)>) -> bool {
    forall|i: int, j: int| 0 <= i < j < entries.len() ==> entries[i].0@ != entries[j].0@
}

/// A key that occurs in a list of pairs, and in no later pair, is in the
/// mapping with the value of that pair.
pub proof fn lemma_extra_map_last(entries: Seq<(String, String)>, key: Seq<char>, at: int)
    requires
        0 <= at < entries.len(),
        entries[at].0@ == key,
        forall|i: int| at < i < entries.len() ==> entries[i].0@ != key,
    ensures
        extra_map(entries).contains_key(key),
        extra_map(entries)[key] == entries[at].1@,
    decreases entries.len(),
{
    if at < entries.len() - 1 {
        lemma_extra_map_last(entries.drop_last(), key, at);
    }
}

/// A key that occurs in no pair of a list is not in the mapping.
pub proof fn lemma_extra_map_absent(entries: Seq<(String, String)>, key: Seq<char>)
    requires
        forall|i: int| 0 <= i < entries.len() ==> entries[i].0@ != key,
    ensures
        !extra_map(entries).contains_key(key),
    decreases entries.len(),
{
    if entries.len() > 0 {
        lemma_extra_map_absent(entries.drop_last(), key);
    }
}

/// Looks a key up in the extra entries of a chat message.
pub fn extra_value<'a>(entries: &'a Vec<(String, String)>, key: &str) -> (r: Option<&'a str>)
    ensures
        str_view(r) == if extra_map(entries@).contains_key(key@) {
            Some(extra_map(entries@)[key@])
        } else {
            None
        },
{
    let mut i: usize = entries.len();
    while i > 0
        invariant
            i <= entries.len(),
            forall|j: int| i <= j < entries.len() ==> entries@[j].0@ != key@,
        decreases i,
    {
        i -= 1;
        if same_text(entries[i].0.as_str(), key) {
            proof {
                lemma_extra_map_last(entries@, key@, i as int);
            }
            return Some(entries[i].1.as_str());
        }
    }
    proof {
        lemma_extra_map_absent(entries@, key@);
    }
    None
}

impl LiveMessage {
    /// Whether the event is one that reading a document can give: the extra
    /// entries of a chat message hold each key once.
    pub open spec fn well_formed(&self) -> bool {
        match self {
            LiveMessage::Danmaku { extra, .. } => keys_distinct(extra@),
            _ => true,
        }
    }
}

/// What a `LiveMessage` holds.
pub enum LiveMessageView {
    StreamStart { timestamp: Timestamp },
    StreamEnd { timestamp: Timestamp },
    Danmaku {
        timestamp: Timestamp,
        user: UserInfoView,
        text: Seq<char>,
        extra: Map<Seq<char>, Seq<char>>,
    },
    SuperChat { timestamp: Timestamp, user: UserInfoView, price: i64, text: Seq<char> },
    Gift {
        timestamp: Timestamp,
        user: UserInfoView,
        gift_name: Seq<char>,
        gift_count: i64,
        coin_type: Seq<char>,
        total_coin: i64,
        img_basic: Option<Seq<char>>,
        img_webp: Option<Seq<char>>,
    },
    Like { timestamp: Timestamp, user: UserInfoView },
    BattleInfo {
        timestamp: Timestamp,
        status: BattleStatus,
        opponent_room: Seq<char>,
        host_votes: i64,
        opponent_votes: i64,
    },
    UserInteract { timestamp: Timestamp, user: UserInfoView, msg_type: UserInteractType },
    WatchedChange { timestamp: Timestamp, count: i64 },
    Unsupported(Seq<char>),
}

impl View for LiveMessage {
    type V = LiveMessageView;

    open spec fn view(&self) -> LiveMessageView {
        match *self {
            LiveMessage::StreamStart { timestamp } => LiveMessageView::StreamStart { timestamp },
            LiveMessage::StreamEnd { timestamp } => LiveMessageView::StreamEnd { timestamp },
            LiveMessage::Danmaku { timestamp, user, text, extra } => LiveMessageView::Danmaku {
                timestamp,
                user: user@,
                text: text@,
                extra: extra_map(extra@),
            },
            LiveMessage::SuperChat { timestamp, user, price, text } => LiveMessageView::SuperChat {
                timestamp,
                user: user@,
                price,
                text: text@,
            },
            LiveMessage::Gift {
                timestamp,
                user,
                gift_name,
                gift_count,
                coin_type,
                total_coin,
                img_basic,
                img_webp,
            } => LiveMessageView::Gift {
                timestamp,
                user: user@,
                gift_name: gift_name@,
                gift_count,
                coin_type: coin_type@,
                total_coin,
                img_basic: text_of(img_basic),
                img_webp: text_of(img_webp),
            },
            LiveMessage::Like { timestamp, user } => LiveMessageView::Like {
                timestamp,
                user: user@,
            },
            LiveMessage::BattleInfo {
                timestamp,
                status,
                opponent_room,
                host_votes,
                opponent_votes,
            } => LiveMessageView::BattleInfo {
                timestamp,
                status,
                opponent_room: opponent_room@,
                host_votes,
                opponent_votes,
            },
            LiveMessage::UserInteract { timestamp, user, msg_type } => {
                LiveMessageView::UserInteract { timestamp, user: user@, msg_type }
            },
            LiveMessage::WatchedChange { timestamp, count } => LiveMessageView::WatchedChange {
                timestamp,
                count,
            },
            LiveMessage::Unsupported(tag) => LiveMessageView::Unsupported(tag@),
        }
    }
}

/// What the outcome of reading one event holds.
pub open spec fn view_of_event(r: Result<LiveMessage, LiveError>) -> Result<
    LiveMessageView,
    LiveError,
> {
    match r {
        Ok(message) => Ok(message@),
        Err(e) => Err(e),
    }
}

/// `chrono::Local::now` and `DateTime::timestamp_millis`: the milliseconds
/// that the local clock shows since the epoch. Nothing is claimed of the
/// value, which differs from reading to reading. `Local::now` gives up where
/// the system clock stands before the epoch.
#[verifier::external_body]
fn clock_millis() -> u64 {
    chrono::Local::now().timestamp_millis() as u64
}

/// One document of the feed, with the room it was received in.
#[derive(Debug)]
pub struct RawMessage {
    room_id: String,
    data: serde_json::Value,
}

impl RawMessage {
    /// The room that the document was received in.
    pub closed spec fn room(&self) -> Seq<char> {
        self.room_id@
    }

    /// What the document holds.
    pub closed spec fn document(&self) -> JsonModel {
        json_model(self.data)
    }

    /// Wraps a document received in the given room.
    pub fn new(room_id: &str, data: serde_json::Value) -> (r: Self)
        ensures
            r.room() == room_id@,
            r.document() == json_model(data),
    {
        RawMessage { room_id: String::from_str(room_id), data }
    }

    /// The document.
    pub fn data(&self) -> (r: &serde_json::Value)
        ensures
            json_model(*r) == self.document(),
    {
        &self.data
    }

    /// The room that the document was received in.
    pub fn room_id(&self) -> (r: &str)
        ensures
            r@ == self.room(),
    {
        self.room_id.as_str()
    }

    /// Gives the document back.
    pub fn into_data(self) -> (r: serde_json::Value)
        ensures
            json_model(r) == self.document(),
    {
        self.data
    }

    /// Writes the document as compact JSON text.
    pub fn to_text(&self) -> (r: Option<String>)
        ensures
            text_of(r) == json_text(self.document()),
    {
        match to_text(&self.data) {
            Ok(text) => Some(text),
            Err(_) => None,
        }
    }

    /// Writes the document as JSON text over several indented lines.
    pub fn to_pretty_text(&self) -> (r: Option<String>)
        ensures
            text_of(r) == json_pretty_text(self.document()),
    {
        match to_pretty_text(&self.data) {
            Ok(text) => Some(text),
            Err(_) => None,
        }
    }

    /// The tag of the document, where it has one.
    pub fn tag(&self) -> (r: Option<&str>)
        ensures
            str_view(r) == rules::tag_of(self.document()),
    {
        member(&self.data, "cmd").as_str()
    }

    /// The tag of a document that has one.
    pub fn msg_type(&self) -> (r: &str)
        requires
            rules::tag_of(self.document()) is Some,
        ensures
            r@ == rules::tag_of(self.document())->Some_0,
    {
        match member(&self.data, "cmd").as_str() {
            Some(tag) => tag,
            None => "",
        }
    }
}

/// A value that must be there, or the failure that names it.
fn required<T>(value: Option<T>, field: &'static str) -> (r: Result<T, LiveError>)
    ensures
        r == match value {
            Some(found) => Ok::<T, LiveError>(found),
            None => Err::<T, LiveError>(LiveError::MissingField(field)),
        },
{
    match value {
        Some(found) => Ok(found),
        None => Err(LiveError::MissingField(field)),
    }
}

/// A text of its own for a borrowed one.
fn owned(value: Option<&str>) -> (r: Option<String>)
    ensures
        text_of(r) == str_view(value),
{
    match value {
        Some(text) => Some(String::from_str(text)),
        None => None,
    }
}

impl UserInfo {
    /// Reads a user from a user sub-document; the wealth level is located by
    /// the caller.
    pub fn from_uinfo(uinfo: &serde_json::Value, wealth_level: Option<i64>) -> (r: Result<
        Self,
        LiveError,
    >)
        ensures
            view_of_user(r) == rules::user_of(json_model(*uinfo), wealth_level),
    {
        Self::new(
            member(uinfo, "uid").as_u64(),
            member(member(uinfo, "base"), "name").as_str(),
            member(member(uinfo, "base"), "face").as_str(),
            member(member(uinfo, "medal"), "level").as_i64(),
            member(member(uinfo, "medal"), "score").as_i64(),
            wealth_level,
        )
    }
}

/// The slot of a chat message that holds its common data.
fn danmaku_common(doc: &serde_json::Value) -> (r: &serde_json::Value)
    ensures
        json_model(*r) == rules::danmaku_common(json_model(*doc)),
{
    element(element(member(doc, "info"), DANMAKU_HEAD), DANMAKU_HEAD_COMMON)
}

/// The slot of a chat message that holds its time.
fn danmaku_time(doc: &serde_json::Value) -> (r: &serde_json::Value)
    ensures
        json_model(*r) == rules::danmaku_time(json_model(*doc)),
{
    element(element(member(doc, "info"), DANMAKU_HEAD), DANMAKU_HEAD_TIME)
}

/// The slot of a chat message that holds its text.
fn danmaku_text(doc: &serde_json::Value) -> (r: &serde_json::Value)
    ensures
        json_model(*r) == rules::danmaku_text(json_model(*doc)),
{
    element(member(doc, "info"), DANMAKU_TEXT)
}

/// The slot of a chat message that holds the sender's wealth level.
fn danmaku_wealth(doc: &serde_json::Value) -> (r: &serde_json::Value)
    ensures
        json_model(*r) == rules::danmaku_wealth(json_model(*doc)),
{
    element(element(member(doc, "info"), DANMAKU_WEALTH), 0)
}

/// The extra entries of a chat message, from its common data.
fn read_extra(common: &serde_json::Value) -> (r: Result<Vec<(String, String)>, LiveError>)
    ensures
        match rules::danmaku_extra(rules::emots_of(json_model(*common))) {
            Ok(entries) => r is Ok && extra_map(r->Ok_0@) == entries && keys_distinct(r->Ok_0@),
            Err(e) => r == Err::<Vec<(String, String)>, LiveError>(e),
        },
{
    let mut extra: Vec<(String, String)> = Vec::new();
    assert(extra_map(extra@) =~= Map::empty());
    if let Some(text) = member(common, "extra").as_str() {
        if let Ok(blob) = parse(text) {
            let emots = member(&blob, "emots");
            if !emots.is_null() {
                match to_text(emots) {
                    Ok(written) => {
                        extra.push((String::from_str("emots"), written));
                        assert(extra@.drop_last() =~= Seq::empty());
                        assert(extra_map(extra@) =~= Map::empty().insert("emots"@, written@));
                    },
                    Err(_) => {
                        return Err(
                            LiveError::ClassificationFailure("failed to serialize emots"),
                        );
                    },
                }
            }
        }
    }
    Ok(extra)
}

/// The votes of one side of a battle.
fn read_votes(side: &serde_json::Value) -> (r: i64)
    ensures
        r == rules::votes_of(json_model(*side)),
{
    match member(side, "votes").as_i64() {
        Some(votes) => votes,
        None => 0,
    }
}

impl LiveMessage {
    /// Reads the start of a broadcast.
    pub fn stream_start(doc: &serde_json::Value) -> (r: Result<Self, LiveError>)
        ensures
            view_of_event(r) == rules::stream_start(json_model(*doc)),
    {
        Ok(
            LiveMessage::StreamStart {
                timestamp: Timestamp::new_server(member(doc, "live_time").as_u64())?,
            },
        )
    }

    /// Reads the end of a broadcast.
    pub fn stream_end(doc: &serde_json::Value) -> (r: Result<Self, LiveError>)
        ensures
            view_of_event(r) == rules::stream_end(json_model(*doc)),
    {
        Ok(
            LiveMessage::StreamEnd {
                timestamp: Timestamp::new_server(member(doc, "send_time").as_u64())?,
            },
        )
    }

    /// Reads a chat message from its positional layout.
    pub fn danmaku(doc: &serde_json::Value) -> (r: Result<Self, LiveError>)
        ensures
            view_of_event(r) == rules::danmaku(json_model(*doc)),
            rules::danmaku_common(json_model(*doc)).is_null() ==> r == Err::<Self, LiveError>(
                LiveError::MissingField("common data"),
            ),
            r is Ok ==> r->Ok_0.well_formed(),
    {
        let common = danmaku_common(doc);
        if common.is_null() {
            return Err(LiveError::MissingField("common data"));
        }
        let extra = read_extra(common)?;
        let timestamp = Timestamp::new_server(danmaku_time(doc).as_u64())?;
        let user = UserInfo::from_uinfo(member(common, "user"), danmaku_wealth(doc).as_i64())?;
        let text = String::from_str(required(danmaku_text(doc).as_str(), "danmaku text")?);
        Ok(LiveMessage::Danmaku { timestamp, user, text, extra })
    }

    /// Reads a paid chat message.
    pub fn super_chat(doc: &serde_json::Value) -> (r: Result<Self, LiveError>)
        ensures
            view_of_event(r) == rules::super_chat(json_model(*doc)),
    {
        let data = member(doc, "data");
        let timestamp = Timestamp::new_server(member(data, "ts").as_u64())?;
        let user = UserInfo::from_uinfo(member(data, "uinfo"), None)?;
        let price = required(member(data, "price").as_i64(), "super chat price")?;
        let text = String::from_str(
            required(member(data, "message").as_str(), "super chat message")?,
        );
        Ok(LiveMessage::SuperChat { timestamp, user, price, text })
    }

    /// Reads a gift.
    pub fn gift(doc: &serde_json::Value) -> (r: Result<Self, LiveError>)
        ensures
            view_of_event(r) == rules::gift(json_model(*doc)),
    {
        let data = member(doc, "data");
        let timestamp = Timestamp::new_server(member(data, "timestamp").as_u64())?;
        let user = UserInfo::from_uinfo(
            member(data, "sender_uinfo"),
            member(data, "wealth_level").as_i64(),
        )?;
        let gift_name = String::from_str(required(member(data, "giftName").as_str(), "gift name")?);
        let gift_count = required(member(data, "num").as_i64(), "gift count")?;
        let coin_type = String::from_str(
            required(member(data, "coin_type").as_str(), "coin type")?,
        );
        let total_coin = required(member(data, "total_coin").as_i64(), "total coin")?;
        let img_basic = owned(member(member(data, "gift_info"), "img_basic").as_str());
        let img_webp = owned(member(member(data, "gift_info"), "webp").as_str());
        Ok(
            LiveMessage::Gift {
                timestamp,
                user,
                gift_name,
                gift_count,
                coin_type,
                total_coin,
                img_basic,
                img_webp,
            },
        )
    }

    /// Reads a like, which takes its time from the local clock.
    pub fn like(doc: &serde_json::Value, now: u64) -> (r: Result<Self, LiveError>)
        ensures
            view_of_event(r) == rules::like(json_model(*doc), now),
    {
        let user = UserInfo::from_uinfo(member(member(doc, "data"), "uinfo"), None)?;
        Ok(LiveMessage::Like { timestamp: Timestamp::at_local(now), user })
    }

    /// Decides which side of a battle is the connected room and which the
    /// opponent.
    pub fn battle_sides(
        room: &str,
        timestamp: Timestamp,
        status: BattleStatus,
        init_room: u64,
        match_room: u64,
        init_votes: i64,
        match_votes: i64,
    ) -> (r: Self)
        ensures
            r@ == rules::battle_sides(
                room@,
                timestamp,
                status,
                init_room,
                match_room,
                init_votes,
                match_votes,
            ),
    {
        let init_name = decimal_string(init_room);
        if same_text(init_name.as_str(), room) {
            LiveMessage::BattleInfo {
                timestamp,
                status,
                opponent_room: decimal_string(match_room),
                host_votes: init_votes,
                opponent_votes: match_votes,
            }
        } else {
            LiveMessage::BattleInfo {
                timestamp,
                status,
                opponent_room: init_name,
                host_votes: match_votes,
                opponent_votes: init_votes,
            }
        }
    }

    /// Reads the state of a battle as the given room sees it.
    pub fn battle(room: &str, doc: &serde_json::Value, status: BattleStatus) -> (r: Result<
        Self,
        LiveError,
    >)
        ensures
            view_of_event(r) == rules::battle(room@, json_model(*doc), status),
    {
        let init = member(member(doc, "data"), "init_info");
        let other = member(member(doc, "data"), "match_info");
        let init_room = required(member(init, "room_id").as_u64(), "init_info room")?;
        let match_room = required(member(other, "room_id").as_u64(), "match_info room")?;
        let init_votes = read_votes(init);
        let match_votes = read_votes(other);
        let timestamp = Timestamp::new_server(member(doc, "timestamp").as_u64())?;
        Ok(
            Self::battle_sides(
                room,
                timestamp,
                status,
                init_room,
                match_room,
                init_votes,
                match_votes,
            ),
        )
    }

    /// Turns a decoded interaction into its event.
    pub fn interact_event(payload: &InteractPayload) -> (r: Result<Self, LiveError>)
        ensures
            view_of_event(r) == rules::interact_event(payload@),
    {
        let timestamp = Timestamp::new_server(Some(payload.timestamp))?;
        let face = match &payload.face {
            Some(face) => Some(face.as_str()),
            None => None,
        };
        let user = UserInfo::new(
            Some(payload.uid),
            Some(payload.uname.as_str()),
            face,
            payload.medal_level,
            payload.medal_score,
            payload.wealth_level,
        )?;
        let msg_type = if payload.msg_type == 1 {
            UserInteractType::JoinRoom
        } else if payload.msg_type == 2 {
            UserInteractType::Subscribe
        } else if payload.msg_type == 3 {
            UserInteractType::Share
        } else {
            return Err(LiveError::ClassificationFailure("unknown message type"));
        };
        Ok(LiveMessage::UserInteract { timestamp, user, msg_type })
    }

    /// Reads an interaction from the binary message that the document
    /// carries as base64 text.
    pub fn interact(doc: &serde_json::Value) -> (r: Result<Self, LiveError>)
        ensures
            view_of_event(r) == rules::interact(json_model(*doc)),
    {
        let text = required(member(member(doc, "data"), "pb").as_str(), "pb")?;
        let payload = InteractPayload::decode(text)?;
        Self::interact_event(&payload)
    }

    /// Reads a change of the count of viewers, which takes its time from the
    /// local clock.
    pub fn watched_change(doc: &serde_json::Value, now: u64) -> (r: Result<Self, LiveError>)
        ensures
            view_of_event(r) == rules::watched_change(json_model(*doc), now),
    {
        let count = required(member(member(doc, "data"), "num").as_i64(), "watched count")?;
        Ok(LiveMessage::WatchedChange { timestamp: Timestamp::at_local(now), count })
    }

    /// Turns a feed document into its typed event, the local clock showing
    /// `now` milliseconds. A document of an unknown kind is kept by its tag.
    pub fn classify(message: &RawMessage, now: u64) -> (r: Result<Self, LiveError>)
        ensures
            view_of_event(r) == rules::classified(message.room(), message.document(), now),
            rules::tag_of(message.document()) is Some && !rules::known_tag(
                rules::tag_of(message.document())->Some_0,
            ) ==> r is Ok && r->Ok_0@ == LiveMessageView::Unsupported(
                rules::tag_of(message.document())->Some_0,
            ),
            r is Ok ==> r->Ok_0.well_formed(),
    {
        let doc = message.data();
        let room = message.room_id();
        let tag = required(message.tag(), "cmd")?;
        if same_text(tag, "LIVE") {
            Self::stream_start(doc)
        } else if same_text(tag, "PREPARING") {
            Self::stream_end(doc)
        } else if same_text(tag, "DANMU_MSG") {
            Self::danmaku(doc)
        } else if same_text(tag, "SUPER_CHAT_MESSAGE") {
            Self::super_chat(doc)
        } else if same_text(tag, "SEND_GIFT") {
            Self::gift(doc)
        } else if same_text(tag, "LIKE_INFO_V3_CLICK") {
            Self::like(doc, now)
        } else if same_text(tag, "PK_BATTLE_START_NEW") {
            Self::battle(room, doc, BattleStatus::Start)
        } else if same_text(tag, "PK_BATTLE_PROCESS_NEW") {
            Self::battle(room, doc, BattleStatus::Process)
        } else if same_text(tag, "PK_BATTLE_SETTLE_NEW") {
            Self::battle(room, doc, BattleStatus::End)
        } else if same_text(tag, "INTERACT_WORD_V2") {
            Self::interact(doc)
        } else if same_text(tag, "WATCHED_CHANGE") {
            Self::watched_change(doc, now)
        } else {
            Ok(LiveMessage::Unsupported(String::from_str(tag)))
        }
    }

    /// Turns a feed document into its typed event, reading the local clock
    /// for the kinds of event that carry no time of their own.
    pub fn try_from(message: RawMessage) -> (r: Result<Self, LiveError>)
        ensures
            exists|now: u64|
                view_of_event(r) == rules::classified(message.room(), message.document(), now),
            r is Ok ==> r->Ok_0.well_formed(),
    {
        let now = clock_millis();
        let r = Self::classify(&message, now);
        assert(view_of_event(r) == rules::classified(message.room(), message.document(), now));
        r
    }

    /// The time of the event; an unsupported event has none.
    pub fn timestamp(&self) -> (r: Option<Timestamp>)
        ensures
            r == self@.timestamp(),
    {
        match self {
            LiveMessage::StreamStart { timestamp } => Some(*timestamp),
            LiveMessage::StreamEnd { timestamp } => Some(*timestamp),
            LiveMessage::Danmaku { timestamp, .. } => Some(*timestamp),
            LiveMessage::SuperChat { timestamp, .. } => Some(*timestamp),
            LiveMessage::Gift { timestamp, .. } => Some(*timestamp),
            LiveMessage::Like { timestamp, .. } => Some(*timestamp),
            LiveMessage::BattleInfo { timestamp, .. } => Some(*timestamp),
            LiveMessage::UserInteract { timestamp, .. } => Some(*timestamp),
            LiveMessage::WatchedChange { timestamp, .. } => Some(*timestamp),
            LiveMessage::Unsupported(_) => None,
        }
    }
}

impl LiveMessageView {
    /// The time of the event; an unsupported event has none.
    pub open spec fn timestamp(self) -> Option<Timestamp> {
        match self {
            LiveMessageView::StreamStart { timestamp } => Some(timestamp),
            LiveMessageView::StreamEnd { timestamp } => Some(timestamp),
            LiveMessageView::Danmaku { timestamp, .. } => Some(timestamp),
            LiveMessageView::SuperChat { timestamp, .. } => Some(timestamp),
            LiveMessageView::Gift { timestamp, .. } => Some(timestamp),
            LiveMessageView::Like { timestamp, .. } => Some(timestamp),
            LiveMessageView::BattleInfo { timestamp, .. } => Some(timestamp),
            LiveMessageView::UserInteract { timestamp, .. } => Some(timestamp),
            LiveMessageView::WatchedChange { timestamp, .. } => Some(timestamp),
            LiveMessageView::Unsupported(_) => None,
        }
    }
}

} // verus!
