//! What each kind of feed document means: for every tag the event that its
//! payload stands for, or the failure it ends in.

use vstd::prelude::*;

use crate::live::error::LiveError;
use crate::live::interact::{base64_decoded, payload_decoded, InteractPayloadView};
use crate::live::json::{json_parsed, json_text, JsonModel};
use crate::live::message::{
    BattleStatus, LiveMessageView, Timestamp, UserInfo, UserInfoView, UserInteractType,
    SECONDS_THRESHOLD,
};
use crate::live::text::{decimal, lemma_decimal_injective};

verus! {

/// The tag of a document: the text under `cmd`.
pub open spec fn tag_of(doc: JsonModel) -> Option<Seq<char>> {
    doc.member("cmd"@).as_str()
}

/// Whether a tag names a kind of event that the library models.
pub open spec fn known_tag(tag: Seq<char>) -> bool {
    ||| tag == "LIVE"@
    ||| tag == "PREPARING"@
    ||| tag == "DANMU_MSG"@
    ||| tag == "SUPER_CHAT_MESSAGE"@
    ||| tag == "SEND_GIFT"@
    ||| tag == "LIKE_INFO_V3_CLICK"@
    ||| tag == "PK_BATTLE_START_NEW"@
    ||| tag == "PK_BATTLE_PROCESS_NEW"@
    ||| tag == "PK_BATTLE_SETTLE_NEW"@
    ||| tag == "INTERACT_WORD_V2"@
    ||| tag == "WATCHED_CHANGE"@
}

/// The user that a user sub-document describes; the wealth level comes from
/// elsewhere.
pub open spec fn user_of(uinfo: JsonModel, wealth_level: Option<i64>) -> Result<
    UserInfoView,
    LiveError,
> {
    UserInfo::built(
        uinfo.member("uid"@).as_u64(),
        uinfo.member("base"@).member("name"@).as_str(),
        uinfo.member("base"@).member("face"@).as_str(),
        uinfo.member("medal"@).member("level"@).as_i64(),
        uinfo.member("medal"@).member("score"@).as_i64(),
        wealth_level,
    )
}

/// The start of a broadcast.
pub open spec fn stream_start(doc: JsonModel) -> Result<LiveMessageView, LiveError> {
    match Timestamp::server(doc.member("live_time"@).as_u64()) {
        Ok(timestamp) => Ok(LiveMessageView::StreamStart { timestamp }),
        Err(e) => Err(e),
    }
}

/// The end of a broadcast.
pub open spec fn stream_end(doc: JsonModel) -> Result<LiveMessageView, LiveError> {
    match Timestamp::server(doc.member("send_time"@).as_u64()) {
        Ok(timestamp) => Ok(LiveMessageView::StreamEnd { timestamp }),
        Err(e) => Err(e),
    }
}

/// The positions of a chat message's fields in its nested arrays: the head
/// array, the text and the array of the wealth level in the outer array; the
/// time and the common data in the head array.
pub const DANMAKU_HEAD: usize = 0;

pub const DANMAKU_TEXT: usize = 1;

pub const DANMAKU_WEALTH: usize = 16;

pub const DANMAKU_HEAD_TIME: usize = 4;

pub const DANMAKU_HEAD_COMMON: usize = 15;

/// The slot of a chat message that holds its common data: in the head
/// array, at its last position.
pub open spec fn danmaku_common(doc: JsonModel) -> JsonModel {
    doc.member("info"@).element(DANMAKU_HEAD as int).element(DANMAKU_HEAD_COMMON as int)
}

/// The slot of a chat message that holds its time, in the head array.
pub open spec fn danmaku_time(doc: JsonModel) -> JsonModel {
    doc.member("info"@).element(DANMAKU_HEAD as int).element(DANMAKU_HEAD_TIME as int)
}

/// The slot of a chat message that holds its text.
pub open spec fn danmaku_text(doc: JsonModel) -> JsonModel {
    doc.member("info"@).element(DANMAKU_TEXT as int)
}

/// The slot of a chat message that holds the sender's wealth level: the
/// first element of an array of its own.
pub open spec fn danmaku_wealth(doc: JsonModel) -> JsonModel {
    doc.member("info"@).element(DANMAKU_WEALTH as int).element(0)
}

/// The emoticons named in the common data of a chat message: where its
/// `extra` member is a text that spells a JSON document with a member
/// `emots` other than null, that member.
pub open spec fn emots_of(common: JsonModel) -> Option<JsonModel> {
    match common.member("extra"@).as_str() {
        Some(text) => match json_parsed(text) {
            Some(blob) => if blob.member("emots"@).is_null() {
                None
            } else {
                Some(blob.member("emots"@))
            },
            None => None,
        },
        None => None,
    }
}

/// The extra entries of a chat message: the emoticons as compact JSON text
/// under the key `emots`, where there are any.
pub open spec fn danmaku_extra(emots: Option<JsonModel>) -> Result<
    Map<Seq<char>, Seq<char>>,
    LiveError,
> {
    match emots {
        Some(document) => match json_text(document) {
            Some(text) => Ok(Map::empty().insert("emots"@, text)),
            None => Err(LiveError::ClassificationFailure("failed to serialize emots")),
        },
        None => Ok(Map::empty()),
    }
}

/// A chat message. Its fields sit at fixed positions of nested arrays; the
/// common data must be there, and then extra entries, time, user and text
/// are required in that order.
pub open spec fn danmaku(doc: JsonModel) -> Result<LiveMessageView, LiveError> {
    let common = danmaku_common(doc);
    let extra = danmaku_extra(emots_of(common));
    let timestamp = Timestamp::server(danmaku_time(doc).as_u64());
    let user = user_of(common.member("user"@), danmaku_wealth(doc).as_i64());
    let text = danmaku_text(doc).as_str();
    if common.is_null() {
        Err(LiveError::MissingField("common data"))
    } else if extra is Err {
        Err(extra->Err_0)
    } else if timestamp is Err {
        Err(timestamp->Err_0)
    } else if user is Err {
        Err(user->Err_0)
    } else if text is None {
        Err(LiveError::MissingField("danmaku text"))
    } else {
        Ok(
            LiveMessageView::Danmaku {
                timestamp: timestamp->Ok_0,
                user: user->Ok_0,
                text: text->Some_0,
                extra: extra->Ok_0,
            },
        )
    }
}

/// A paid chat message; this shape has no source for a wealth level.
pub open spec fn super_chat(doc: JsonModel) -> Result<LiveMessageView, LiveError> {
    let data = doc.member("data"@);
    let timestamp = Timestamp::server(data.member("ts"@).as_u64());
    let user = user_of(data.member("uinfo"@), None);
    let price = data.member("price"@).as_i64();
    let text = data.member("message"@).as_str();
    if timestamp is Err {
        Err(timestamp->Err_0)
    } else if user is Err {
        Err(user->Err_0)
    } else if price is None {
        Err(LiveError::MissingField("super chat price"))
    } else if text is None {
        Err(LiveError::MissingField("super chat message"))
    } else {
        Ok(
            LiveMessageView::SuperChat {
                timestamp: timestamp->Ok_0,
                user: user->Ok_0,
                price: price->Some_0,
                text: text->Some_0,
            },
        )
    }
}

/// A gift; the wealth level stands beside the user sub-document.
pub open spec fn gift(doc: JsonModel) -> Result<LiveMessageView, LiveError> {
    let data = doc.member("data"@);
    let timestamp = Timestamp::server(data.member("timestamp"@).as_u64());
    let user = user_of(data.member("sender_uinfo"@), data.member("wealth_level"@).as_i64());
    let gift_name = data.member("giftName"@).as_str();
    let gift_count = data.member("num"@).as_i64();
    let coin_type = data.member("coin_type"@).as_str();
    let total_coin = data.member("total_coin"@).as_i64();
    if timestamp is Err {
        Err(timestamp->Err_0)
    } else if user is Err {
        Err(user->Err_0)
    } else if gift_name is None {
        Err(LiveError::MissingField("gift name"))
    } else if gift_count is None {
        Err(LiveError::MissingField("gift count"))
    } else if coin_type is None {
        Err(LiveError::MissingField("coin type"))
    } else if total_coin is None {
        Err(LiveError::MissingField("total coin"))
    } else {
        Ok(
            LiveMessageView::Gift {
                timestamp: timestamp->Ok_0,
                user: user->Ok_0,
                gift_name: gift_name->Some_0,
                gift_count: gift_count->Some_0,
                coin_type: coin_type->Some_0,
                total_coin: total_coin->Some_0,
                img_basic: data.member("gift_info"@).member("img_basic"@).as_str(),
                img_webp: data.member("gift_info"@).member("webp"@).as_str(),
            },
        )
    }
}

/// A like; the feed carries no time for it, so the local clock gives one.
pub open spec fn like(doc: JsonModel, now: u64) -> Result<LiveMessageView, LiveError> {
    match user_of(doc.member("data"@).member("uinfo"@), None) {
        Ok(user) => Ok(LiveMessageView::Like { timestamp: Timestamp::local(now), user }),
        Err(e) => Err(e),
    }
}

/// The votes of one side of a battle; a side without a count has none.
pub open spec fn votes_of(side: JsonModel) -> i64 {
    match side.member("votes"@).as_i64() {
        Some(votes) => votes,
        None => 0,
    }
}

/// A battle seen from the connected room. The side that opened the battle is
/// the host where its room is the connected one; in every other case the
/// other side is the host, and the side that opened it the opponent.
pub open spec fn battle_sides(
    room: Seq<char>,
    timestamp: Timestamp,
    status: BattleStatus,
    init_room: u64,
    match_room: u64,
    init_votes: i64,
    match_votes: i64,
) -> LiveMessageView {
    if decimal(init_room as nat) == room {
        LiveMessageView::BattleInfo {
            timestamp,
            status,
            opponent_room: decimal(match_room as nat),
            host_votes: init_votes,
            opponent_votes: match_votes,
        }
    } else {
        LiveMessageView::BattleInfo {
            timestamp,
            status,
            opponent_room: decimal(init_room as nat),
            host_votes: match_votes,
            opponent_votes: init_votes,
        }
    }
}

/// The state of a battle: both rooms are required, then the time.
pub open spec fn battle(room: Seq<char>, doc: JsonModel, status: BattleStatus) -> Result<
    LiveMessageView,
    LiveError,
> {
    let init = doc.member("data"@).member("init_info"@);
    let other = doc.member("data"@).member("match_info"@);
    let init_room = init.member("room_id"@).as_u64();
    let match_room = other.member("room_id"@).as_u64();
    let timestamp = Timestamp::server(doc.member("timestamp"@).as_u64());
    if init_room is None {
        Err(LiveError::MissingField("init_info room"))
    } else if match_room is None {
        Err(LiveError::MissingField("match_info room"))
    } else if timestamp is Err {
        Err(timestamp->Err_0)
    } else {
        Ok(
            battle_sides(
                room,
                timestamp->Ok_0,
                status,
                init_room->Some_0,
                match_room->Some_0,
                votes_of(init),
                votes_of(other),
            ),
        )
    }
}

/// What a viewer did, by its code.
pub open spec fn interact_kind(code: u64) -> Option<UserInteractType> {
    if code == 1 {
        Some(UserInteractType::JoinRoom)
    } else if code == 2 {
        Some(UserInteractType::Subscribe)
    } else if code == 3 {
        Some(UserInteractType::Share)
    } else {
        None
    }
}

/// The event that a decoded interaction tells of; a code other than the
/// three known ones is a failure.
pub open spec fn interact_event(payload: InteractPayloadView) -> Result<
    LiveMessageView,
    LiveError,
> {
    let timestamp = Timestamp::server(Some(payload.timestamp));
    let user = UserInfo::built(
        Some(payload.uid),
        Some(payload.uname),
        payload.face,
        payload.medal_level,
        payload.medal_score,
        payload.wealth_level,
    );
    match interact_kind(payload.msg_type) {
        Some(msg_type) => Ok(
            LiveMessageView::UserInteract {
                timestamp: timestamp->Ok_0,
                user: user->Ok_0,
                msg_type,
            },
        ),
        None => Err(LiveError::ClassificationFailure("unknown message type")),
    }
}

/// An interaction: the text under `pb` is required, must be base64 and must
/// spell a message.
pub open spec fn interact(doc: JsonModel) -> Result<LiveMessageView, LiveError> {
    match doc.member("data"@).member("pb"@).as_str() {
        None => Err(LiveError::MissingField("pb")),
        Some(text) => match base64_decoded(text) {
            None => Err(LiveError::DecodeFailure),
            Some(bytes) => match payload_decoded(bytes) {
                None => Err(LiveError::DecodeFailure),
                Some(payload) => interact_event(payload),
            },
        },
    }
}

/// A change of the count of viewers; the local clock gives the time.
pub open spec fn watched_change(doc: JsonModel, now: u64) -> Result<LiveMessageView, LiveError> {
    match doc.member("data"@).member("num"@).as_i64() {
        Some(count) => Ok(LiveMessageView::WatchedChange { timestamp: Timestamp::local(now), count }),
        None => Err(LiveError::MissingField("watched count")),
    }
}

/// The event that a document with the given tag stands for in the connected
/// room, the local clock showing `now` milliseconds.
pub open spec fn event_of(room: Seq<char>, tag: Seq<char>, doc: JsonModel, now: u64) -> Result<
    LiveMessageView,
    LiveError,
> {
    if tag == "LIVE"@ {
        stream_start(doc)
    } else if tag == "PREPARING"@ {
        stream_end(doc)
    } else if tag == "DANMU_MSG"@ {
        danmaku(doc)
    } else if tag == "SUPER_CHAT_MESSAGE"@ {
        super_chat(doc)
    } else if tag == "SEND_GIFT"@ {
        gift(doc)
    } else if tag == "LIKE_INFO_V3_CLICK"@ {
        like(doc, now)
    } else if tag == "PK_BATTLE_START_NEW"@ {
        battle(room, doc, BattleStatus::Start)
    } else if tag == "PK_BATTLE_PROCESS_NEW"@ {
        battle(room, doc, BattleStatus::Process)
    } else if tag == "PK_BATTLE_SETTLE_NEW"@ {
        battle(room, doc, BattleStatus::End)
    } else if tag == "INTERACT_WORD_V2"@ {
        interact(doc)
    } else if tag == "WATCHED_CHANGE"@ {
        watched_change(doc, now)
    } else {
        Ok(LiveMessageView::Unsupported(tag))
    }
}

/// The event that a document stands for: a document without a tag is
/// refused, every other one goes by its tag.
pub open spec fn classified(room: Seq<char>, doc: JsonModel, now: u64) -> Result<
    LiveMessageView,
    LiveError,
> {
    match tag_of(doc) {
        Some(tag) => event_of(room, tag, doc, now),
        None => Err(LiveError::MissingField("cmd")),
    }
}

/// The kind of event that a tag stands for fixes the kind of the record: a
/// document that is read without failure gives the record of its tag.
pub proof fn lemma_tag_fixes_variant(room: Seq<char>, doc: JsonModel, now: u64)
    ensures
        stream_start(doc) is Ok ==> stream_start(doc)->Ok_0 is StreamStart,
        stream_end(doc) is Ok ==> stream_end(doc)->Ok_0 is StreamEnd,
        danmaku(doc) is Ok ==> danmaku(doc)->Ok_0 is Danmaku,
        super_chat(doc) is Ok ==> super_chat(doc)->Ok_0 is SuperChat,
        gift(doc) is Ok ==> gift(doc)->Ok_0 is Gift,
        like(doc, now) is Ok ==> like(doc, now)->Ok_0 is Like,
        forall|status: BattleStatus| #[trigger]
            battle(room, doc, status) is Ok ==> battle(room, doc, status)->Ok_0 is BattleInfo
                && battle(room, doc, status)->Ok_0->BattleInfo_status == status,
        interact(doc) is Ok ==> interact(doc)->Ok_0 is UserInteract,
        watched_change(doc, now) is Ok ==> watched_change(doc, now)->Ok_0 is WatchedChange,
{
}

/// A document whose tag is none of the known ones is kept as unsupported,
/// under its tag: it is never a failure, whatever else the document holds.
pub proof fn lemma_unknown_tag_is_unsupported(room: Seq<char>, doc: JsonModel, now: u64)
    requires
        tag_of(doc) is Some,
        !known_tag(tag_of(doc)->Some_0),
    ensures
        classified(room, doc, now) == Ok::<LiveMessageView, LiveError>(
            LiveMessageView::Unsupported(tag_of(doc)->Some_0),
        ),
{
}

/// Only a document whose tag is none of the known ones is unsupported.
pub proof fn lemma_unsupported_only_for_unknown_tags(room: Seq<char>, doc: JsonModel, now: u64)
    requires
        classified(room, doc, now) is Ok,
        classified(room, doc, now)->Ok_0 is Unsupported,
    ensures
        tag_of(doc) is Some,
        !known_tag(tag_of(doc)->Some_0),
{
    lemma_tag_fixes_variant(room, doc, now);
}

/// A server timestamp below the threshold counts seconds and is scaled by a
/// thousand; one at or above it counts milliseconds and is kept.
pub proof fn lemma_server_timestamp(raw: u64)
    ensures
        Timestamp::server(Some(raw)) is Ok,
        Timestamp::server(Some(raw))->Ok_0.from_server,
        raw < SECONDS_THRESHOLD ==> Timestamp::server(Some(raw))->Ok_0.ts == raw * 1000,
        raw >= SECONDS_THRESHOLD ==> Timestamp::server(Some(raw))->Ok_0.ts == raw,
{
}

/// A chat message without its common data is a failure that names the
/// common data, whatever its other slots hold.
pub proof fn lemma_danmaku_needs_common_data(room: Seq<char>, doc: JsonModel, now: u64)
    requires
        tag_of(doc) == Some("DANMU_MSG"@),
        danmaku_common(doc).is_null(),
    ensures
        classified(room, doc, now) == Err::<LiveMessageView, LiveError>(
            LiveError::MissingField("common data"),
        ),
{
    lemma_tag_selects_rule(room, doc, now);
}

/// Each known tag selects its own rule: no two of them are the same text.
pub proof fn lemma_tag_selects_rule(room: Seq<char>, doc: JsonModel, now: u64)
    ensures
        event_of(room, "LIVE"@, doc, now) == stream_start(doc),
        event_of(room, "PREPARING"@, doc, now) == stream_end(doc),
        event_of(room, "DANMU_MSG"@, doc, now) == danmaku(doc),
        event_of(room, "SUPER_CHAT_MESSAGE"@, doc, now) == super_chat(doc),
        event_of(room, "SEND_GIFT"@, doc, now) == gift(doc),
        event_of(room, "LIKE_INFO_V3_CLICK"@, doc, now) == like(doc, now),
        event_of(room, "PK_BATTLE_START_NEW"@, doc, now) == battle(room, doc, BattleStatus::Start),
        event_of(room, "PK_BATTLE_PROCESS_NEW"@, doc, now) == battle(
            room,
            doc,
            BattleStatus::Process,
        ),
        event_of(room, "PK_BATTLE_SETTLE_NEW"@, doc, now) == battle(room, doc, BattleStatus::End),
        event_of(room, "INTERACT_WORD_V2"@, doc, now) == interact(doc),
        event_of(room, "WATCHED_CHANGE"@, doc, now) == watched_change(doc, now),
{
    reveal_strlit("LIVE");
    reveal_strlit("PREPARING");
    reveal_strlit("DANMU_MSG");
    reveal_strlit("SUPER_CHAT_MESSAGE");
    reveal_strlit("SEND_GIFT");
    reveal_strlit("LIKE_INFO_V3_CLICK");
    reveal_strlit("PK_BATTLE_START_NEW");
    reveal_strlit("PK_BATTLE_PROCESS_NEW");
    reveal_strlit("PK_BATTLE_SETTLE_NEW");
    reveal_strlit("INTERACT_WORD_V2");
    reveal_strlit("WATCHED_CHANGE");
    assert("LIVE"@.len() == 4);
    assert("PREPARING"@.len() == 9);
    assert("DANMU_MSG"@.len() == 9);
    assert("SUPER_CHAT_MESSAGE"@.len() == 18);
    assert("SEND_GIFT"@.len() == 9);
    assert("LIKE_INFO_V3_CLICK"@.len() == 18);
    assert("PK_BATTLE_START_NEW"@.len() == 19);
    assert("PK_BATTLE_PROCESS_NEW"@.len() == 21);
    assert("PK_BATTLE_SETTLE_NEW"@.len() == 20);
    assert("INTERACT_WORD_V2"@.len() == 16);
    assert("WATCHED_CHANGE"@.len() == 14);
    assert("PREPARING"@[0] == 'P' && "DANMU_MSG"@[0] == 'D' && "SEND_GIFT"@[0] == 'S');
    assert("SUPER_CHAT_MESSAGE"@[0] == 'S' && "LIKE_INFO_V3_CLICK"@[0] == 'L');
}

/// A decoded interaction is an interaction event or a failure, never an
/// unsupported event: the codes one, two and three mean joining, following
/// and sharing, and every other code is refused.
pub proof fn lemma_interact_codes(payload: InteractPayloadView)
    ensures
        payload.msg_type == 1 ==> interact_event(payload) is Ok && interact_event(
            payload,
        )->Ok_0->UserInteract_msg_type == UserInteractType::JoinRoom,
        payload.msg_type == 2 ==> interact_event(payload) is Ok && interact_event(
            payload,
        )->Ok_0->UserInteract_msg_type == UserInteractType::Subscribe,
        payload.msg_type == 3 ==> interact_event(payload) is Ok && interact_event(
            payload,
        )->Ok_0->UserInteract_msg_type == UserInteractType::Share,
        !(1 <= payload.msg_type <= 3) ==> interact_event(payload) == Err::<
            LiveMessageView,
            LiveError,
        >(LiveError::ClassificationFailure("unknown message type")),
        interact_event(payload) is Ok ==> interact_event(payload)->Ok_0 is UserInteract,
{
}

/// A document of the interaction kind whose payload text is valid base64 of
/// a valid message is read as the event of that message's code: a follow for
/// code two, a failure for every code but one, two and three, and never an
/// unsupported event.
pub proof fn lemma_interact_document(room: Seq<char>, doc: JsonModel, now: u64)
    requires
        tag_of(doc) == Some("INTERACT_WORD_V2"@),
        doc.member("data"@).member("pb"@).as_str() is Some,
        base64_decoded(doc.member("data"@).member("pb"@).as_str()->Some_0) is Some,
        payload_decoded(
            base64_decoded(doc.member("data"@).member("pb"@).as_str()->Some_0)->Some_0,
        ) is Some,
    ensures
        ({
            let payload = payload_decoded(
                base64_decoded(doc.member("data"@).member("pb"@).as_str()->Some_0)->Some_0,
            )->Some_0;
            &&& classified(room, doc, now) == interact_event(payload)
            &&& payload.msg_type == 2 ==> classified(room, doc, now) is Ok && classified(
                room,
                doc,
                now,
            )->Ok_0->UserInteract_msg_type == UserInteractType::Subscribe
            &&& !(1 <= payload.msg_type <= 3) ==> classified(room, doc, now) == Err::<
                LiveMessageView,
                LiveError,
            >(LiveError::ClassificationFailure("unknown message type"))
            &&& classified(room, doc, now) is Ok ==> classified(room, doc, now)->Ok_0
                is UserInteract
        }),
{
    lemma_tag_selects_rule(room, doc, now);
}

/// Seen from the room that opened a battle, the votes keep their sides; seen
/// from the other room of the battle, they change sides, and the room that
/// opened it is the opponent.
pub proof fn lemma_battle_sides(
    timestamp: Timestamp,
    status: BattleStatus,
    init_room: u64,
    match_room: u64,
    init_votes: i64,
    match_votes: i64,
)
    ensures
        battle_sides(
            decimal(init_room as nat),
            timestamp,
            status,
            init_room,
            match_room,
            init_votes,
            match_votes,
        ) == (LiveMessageView::BattleInfo {
            timestamp,
            status,
            opponent_room: decimal(match_room as nat),
            host_votes: init_votes,
            opponent_votes: match_votes,
        }),
        init_room != match_room ==> battle_sides(
            decimal(match_room as nat),
            timestamp,
            status,
            init_room,
            match_room,
            init_votes,
            match_votes,
        ) == (LiveMessageView::BattleInfo {
            timestamp,
            status,
            opponent_room: decimal(init_room as nat),
            host_votes: match_votes,
            opponent_votes: init_votes,
        }),
{
    if init_room != match_room && decimal(init_room as nat) == decimal(match_room as nat) {
        lemma_decimal_injective(init_room as nat, match_room as nat);
    }
}

} // verus!
