//! The backplane: what nodes tell each other, and how it is written on the wire.
//!
//! A message says what happened to a key and when, never the value. On the wire it is
//! one line of text, `source|ticks|action|key`: the key comes last and may hold the
//! separator itself.
use crate::text::{
    decimal, is_digit, law_decimal_round_trip, parse_signed, parse_unsigned, push_decimal,
    signed_number, to_chars, unsigned_number,
};
use crate::time::{Duration, Timestamp};
use vstd::prelude::*;
use vstd::utf8::*;

verus! {

/// The kind of change a message announces.
#[derive(Debug, Clone, Copy, PartialEq, Eq, Structural)]
pub enum BackplaneAction {
    /// A key was written.
    Put,
    /// A key was removed.
    Remove,
    /// A key was logically expired.
    Expire,
}

/// A notification from one node to the others.
#[derive(Debug)]
pub struct BackplaneMessage {
    /// The instance that sent it.
    pub source_id: String,
    /// When the change happened.
    pub timestamp: Timestamp,
    /// What changed.
    pub action: BackplaneAction,
    /// The full key affected.
    pub key: String,
}

impl Clone for BackplaneMessage {
    fn clone(&self) -> (message: Self)
        ensures
            message == *self,
    {
        BackplaneMessage {
            source_id: self.source_id.clone(),
            timestamp: self.timestamp,
            action: self.action,
            key: self.key.clone(),
        }
    }
}

/// What a message says.
pub struct Notice {
    /// The instance that sent it.
    pub source_id: Seq<char>,
    /// When the change happened.
    pub timestamp: Timestamp,
    /// What changed.
    pub action: BackplaneAction,
    /// The full key affected.
    pub key: Seq<char>,
}

impl View for BackplaneMessage {
    type V = Notice;

    open spec fn view(&self) -> Notice {
        Notice {
            source_id: self.source_id@,
            timestamp: self.timestamp,
            action: self.action,
            key: self.key@,
        }
    }
}

/// The pub/sub channel that nodes talk on unless told otherwise.
pub fn default_channel() -> (channel: String)
    ensures
        channel@ == "amalgam:backplane"@,
{
    String::from_str("amalgam:backplane")
}

/// The number that stands for an action on the wire.
pub open spec fn action_code(action: BackplaneAction) -> u8 {
    match action {
        BackplaneAction::Put => 1,
        BackplaneAction::Remove => 2,
        BackplaneAction::Expire => 3,
    }
}

/// The action that a number on the wire stands for.
pub open spec fn action_with_code(code: int) -> Option<BackplaneAction> {
    if code == 1 {
        Some(BackplaneAction::Put)
    } else if code == 2 {
        Some(BackplaneAction::Remove)
    } else if code == 3 {
        Some(BackplaneAction::Expire)
    } else {
        None
    }
}

/// Encodes an action as a single byte.
pub fn action_byte(action: BackplaneAction) -> (byte: u8)
    ensures
        byte == action_code(action),
{
    match action {
        BackplaneAction::Put => 1,
        BackplaneAction::Remove => 2,
        BackplaneAction::Expire => 3,
    }
}

/// Decodes an action from a single byte; `None` if the byte stands for none.
pub fn action_from_byte(byte: u8) -> (action: Option<BackplaneAction>)
    ensures
        action == action_with_code(byte as int),
{
    match byte {
        1 => Some(BackplaneAction::Put),
        2 => Some(BackplaneAction::Remove),
        3 => Some(BackplaneAction::Expire),
        _ => None,
    }
}

/// The line that stands for a message.
pub open spec fn wire_text(notice: Notice) -> Seq<char> {
    notice.source_id + seq!['|'] + decimal(notice.timestamp.0 as int) + seq!['|'] + decimal(
        action_code(notice.action) as int,
    ) + seq!['|'] + notice.key
}

/// The index of the first separator, or the length if there is none.
pub open spec fn first_bar(s: Seq<char>) -> int
    decreases s.len(),
{
    if s.len() == 0 || s[0] == '|' {
        0
    } else {
        1 + first_bar(s.skip(1))
    }
}

/// What stands before and what stands after the first separator, if there is one.
pub open spec fn split_bar(s: Seq<char>) -> Option<(Seq<char>, Seq<char>)> {
    if first_bar(s) < s.len() {
        Some((s.take(first_bar(s)), s.skip(first_bar(s) + 1)))
    } else {
        None
    }
}

/// What a line of text says: its first three fields end at the first three separators,
/// and the key is all the rest.
pub open spec fn parsed(text: Seq<char>) -> Option<Notice> {
    match split_bar(text) {
        Some((source_id, rest)) => match split_bar(rest) {
            Some((ticks, rest)) => match split_bar(rest) {
                Some((code, key)) => match (signed_number(ticks), unsigned_number(code, 255)) {
                    (Some(t), Some(c)) => match action_with_code(c) {
                        Some(action) => Some(
                            Notice { source_id, timestamp: Timestamp(t as i64), action, key },
                        ),
                        None => None,
                    },
                    _ => None,
                },
                None => None,
            },
            None => None,
        },
        None => None,
    }
}

/// What bytes off the wire say.
pub open spec fn received(bytes: Seq<u8>) -> Option<Notice> {
    if valid_utf8(bytes) {
        parsed(decode_utf8(bytes))
    } else {
        None
    }
}

/// `std::str::from_utf8`: the text that the bytes encode, or `None` if they are not valid
/// UTF-8.
#[verifier::external_body]
fn utf8_text(bytes: &[u8]) -> (text: Option<&str>)
    ensures
        match text {
            Some(t) => valid_utf8(bytes@) && t@ == decode_utf8(bytes@),
            None => !valid_utf8(bytes@),
        },
{
    std::str::from_utf8(bytes).ok()
}

/// Writes a message as a line of text.
pub fn encode_message(message: &BackplaneMessage) -> (text: String)
    ensures
        text@ == wire_text(message@),
{
    let mut text = message.source_id.clone();
    text.push('|');
    push_decimal(&mut text, message.timestamp.ticks());
    text.push('|');
    push_decimal(&mut text, action_byte(message.action) as i64);
    text.push('|');
    text.append(message.key.as_str());
    assert(text@ =~= wire_text(message@));
    text
}

proof fn lemma_first_bar(s: Seq<char>, i: int)
    requires
        0 <= i <= s.len(),
        forall|j: int| 0 <= j < i ==> s[j] != '|',
        i < s.len() ==> s[i] == '|',
    ensures
        first_bar(s) == i,
    decreases s.len(),
{
    if i > 0 {
        assert forall|j: int| 0 <= j < i - 1 implies s.skip(1)[j] != '|' by {
            assert(s[j + 1] != '|');
        }
        lemma_first_bar(s.skip(1), i - 1);
    }
}

/// The index of the first separator at or after `from`, or the length if there is none.
fn find_bar(chars: &Vec<char>, from: usize) -> (at: usize)
    requires
        from <= chars.len(),
    ensures
        from <= at <= chars.len(),
        at - from == first_bar(chars@.skip(from as int)),
{
    let mut i: usize = from;
    let ghost rest = chars@.skip(from as int);
    while i < chars.len() && chars[i] != '|'
        invariant
            from <= i <= chars.len(),
            rest == chars@.skip(from as int),
            forall|j: int| 0 <= j < i - from ==> rest[j] != '|',
        decreases chars.len() - i,
    {
        i += 1;
    }
    proof {
        lemma_first_bar(rest, i - from);
    }
    i
}

fn decode_text(text: &str) -> (message: Option<BackplaneMessage>)
    ensures
        match parsed(text@) {
            Some(notice) => message matches Some(m) && m@ == notice,
            None => message is None,
        },
{
    let chars = to_chars(text);
    let n: usize = chars.len();
    assert(chars@.skip(0) =~= text@);
    let a: usize = find_bar(&chars, 0);
    if a == n {
        return None;
    }
    let b: usize = find_bar(&chars, a + 1);
    assert(text@.skip(a + 1) =~= chars@.skip(a + 1));
    if b == n {
        return None;
    }
    let c: usize = find_bar(&chars, b + 1);
    let ghost r1 = text@.skip(a + 1);
    assert(r1.skip(b - a) =~= chars@.skip(b + 1));
    if c == n {
        return None;
    }
    let ghost r2 = r1.skip(b - a);
    proof {
        assert(r1.take(b - a - 1) =~= chars@.subrange(a + 1, b as int));
        assert(r2.take(c - b - 1) =~= chars@.subrange(b + 1, c as int));
        assert(r2.skip(c - b) =~= text@.subrange(c + 1, n as int));
        assert(text@.take(a as int) =~= text@.subrange(0, a as int));
    }
    let ticks: i64 = match parse_signed(&chars, a + 1, b) {
        Some(t) => t,
        None => return None,
    };
    let code: u64 = match parse_unsigned(&chars, b + 1, c, 255) {
        Some(code) => code,
        None => return None,
    };
    match action_from_byte(code as u8) {
        Some(action) => Some(
            BackplaneMessage {
                source_id: text.substring_char(0, a).to_owned(),
                timestamp: Timestamp::from_ticks(ticks),
                action,
                key: text.substring_char(c + 1, n).to_owned(),
            },
        ),
        None => None,
    }
}

/// Reads a message off the wire. What is malformed (not UTF-8, a field missing, no
/// number, an unknown action) gives `None`.
pub fn decode_message(bytes: &[u8]) -> (message: Option<BackplaneMessage>)
    ensures
        match received(bytes@) {
            Some(notice) => message matches Some(m) && m@ == notice,
            None => message is None,
        },
{
    match utf8_text(bytes) {
        Some(text) => decode_text(text),
        None => None,
    }
}

proof fn lemma_split(head: Seq<char>, tail: Seq<char>)
    requires
        forall|i: int| 0 <= i < head.len() ==> head[i] != '|',
    ensures
        split_bar(head + seq!['|'] + tail) == Some((head, tail)),
{
    let s = head + seq!['|'] + tail;
    assert forall|j: int| 0 <= j < head.len() implies s[j] != '|' by {
        assert(s[j] == head[j]);
    }
    lemma_first_bar(s, head.len() as int);
    assert(s.take(head.len() as int) =~= head);
    assert(s.skip(head.len() as int + 1) =~= tail);
}

/// A message that is written on the wire and read back says what it said before, whatever
/// its key holds, as long as the sender's id is free of the separator.
pub proof fn law_wire_round_trip(notice: Notice)
    requires
        !notice.source_id.contains('|'),
    ensures
        parsed(wire_text(notice)) == Some(notice),
        received(encode_utf8(wire_text(notice))) == Some(notice),
{
    let text = wire_text(notice);
    let ticks = decimal(notice.timestamp.0 as int);
    let code = decimal(action_code(notice.action) as int);
    law_decimal_round_trip(notice.timestamp.0 as int);
    law_decimal_round_trip(action_code(notice.action) as int);
    assert forall|i: int| 0 <= i < ticks.len() implies ticks[i] != '|' by {
        assert(is_digit(ticks[i]) || ticks[i] == '-');
    }
    assert forall|i: int| 0 <= i < code.len() implies code[i] != '|' by {
        assert(is_digit(code[i]) || code[i] == '-');
    }
    let r2 = code + seq!['|'] + notice.key;
    let r1 = ticks + seq!['|'] + r2;
    assert(text =~= notice.source_id + seq!['|'] + r1);
    lemma_split(notice.source_id, r1);
    lemma_split(ticks, r2);
    lemma_split(code, notice.key);
    lemma_small_number(action_code(notice.action) as int);
    encode_utf8_valid_utf8(text);
    encode_utf8_decode_utf8(text);
}

proof fn lemma_small_number(n: int)
    requires
        0 <= n < 10,
    ensures
        unsigned_number(decimal(n), 255) == Some(n),
{
    law_decimal_round_trip(n);
}

/// Every action has a number of its own on the wire.
pub proof fn law_action_round_trip(action: BackplaneAction)
    ensures
        action_with_code(action_code(action) as int) == Some(action),
{
}

/// A span in whole milliseconds for a store that counts in them: at least one, so that a
/// very short time to live never becomes none, and never more than a `u64` holds.
pub fn duration_to_millis(ttl: Duration) -> (millis: u64)
    ensures
        millis == ({
            let whole = ttl.nanos as int / 1_000_000;
            if whole == 0 {
                1int
            } else if whole > u64::MAX {
                u64::MAX as int
            } else {
                whole
            }
        }),
{
    let whole: u128 = ttl.as_millis();
    if whole == 0 {
        1
    } else if whole > 0xffff_ffff_ffff_ffff {
        u64::MAX
    } else {
        whole as u64
    }
}

/// A message that one node writes on the wire is what any other reads off it: the same sender,
/// instant, action and key, whatever the key holds, as long as the sender's id is free of the
/// separator.
pub proof fn law_message_survives_the_wire(
    message: BackplaneMessage,
    text: String,
    bytes: &[u8],
    read: Option<BackplaneMessage>,
)
    requires
        call_ensures(encode_message, (&message,), text),
        bytes@ == encode_utf8(text@),
        call_ensures(decode_message, (bytes,), read),
        !message.source_id@.contains('|'),
    ensures
        read matches Some(same) && same.source_id@ == message.source_id@ && same.timestamp
            == message.timestamp && same.action == message.action && same.key@ == message.key@,
{
    law_wire_round_trip(message@);
}

/// Every action has a byte of its own, which stands for it and for no other.
pub proof fn law_actions_have_bytes_of_their_own(
    a: BackplaneAction,
    b: BackplaneAction,
    byte_a: u8,
    byte_b: u8,
    read: Option<BackplaneAction>,
)
    requires
        call_ensures(action_byte, (a,), byte_a),
        call_ensures(action_byte, (b,), byte_b),
        call_ensures(action_from_byte, (byte_a,), read),
    ensures
        byte_a == byte_b <==> a == b,
        read == Some(a),
{
}

/// A time to live in whole milliseconds is never none, and differs from the span by less than one
/// millisecond, unless the span is shorter than that or longer than can be counted.
pub proof fn law_short_time_to_live_is_not_lost(ttl: Duration, millis: u64)
    requires
        call_ensures(duration_to_millis, (ttl,), millis),
    ensures
        millis >= 1,
        ttl.nanos >= 1_000_000 && ttl.nanos as int / 1_000_000 <= u64::MAX ==> millis * 1_000_000
            <= ttl.nanos < (millis + 1) * 1_000_000,
{
}

proof fn lemma_bar_splits(s: Seq<char>)
    ensures
        0 <= first_bar(s) <= s.len(),
        forall|i: int| 0 <= i < first_bar(s) ==> s[i] != '|',
        first_bar(s) < s.len() ==> s[first_bar(s)] == '|',
        split_bar(s) matches Some((head, tail)) ==> s == head + seq!['|'] + tail
            && !head.contains('|'),
    decreases s.len(),
{
    if s.len() > 0 && s[0] != '|' {
        lemma_bar_splits(s.skip(1));
        assert forall|i: int| 0 <= i < first_bar(s) implies s[i] != '|' by {
            if i > 0 {
                assert(s[i] == s.skip(1)[i - 1]);
            }
        }
        if first_bar(s) < s.len() {
            assert(s[first_bar(s)] == s.skip(1)[first_bar(s) - 1]);
        }
    }
    if first_bar(s) < s.len() {
        let head = s.take(first_bar(s));
        let tail = s.skip(first_bar(s) + 1);
        assert(s =~= head + seq!['|'] + tail);
        assert(!head.contains('|'));
    }
}

/// Nothing is read off the wire that is not there: what is read stands in the text, field by field,
/// the sender first, then the instant and the action as numbers, and then the key; and the number
/// of the action is one that stands for it.
pub proof fn law_only_well_formed_messages_are_read(bytes: &[u8], read: Option<BackplaneMessage>)
    requires
        call_ensures(decode_message, (bytes,), read),
    ensures
        !valid_utf8(bytes@) ==> read is None,
        read matches Some(message) ==> exists|ticks: Seq<char>, code: Seq<char>|
            {
                &&& decode_utf8(bytes@) == #[trigger] (message.source_id@ + seq!['|'] + (ticks
                    + seq!['|'] + (code + seq!['|'] + message.key@)))
                &&& !message.source_id@.contains('|') && !ticks.contains('|') && !code.contains('|')
                &&& signed_number(ticks) == Some(message.timestamp.0 as int)
                &&& message.action is Put ==> unsigned_number(code, 255) == Some(1int)
                &&& message.action is Remove ==> unsigned_number(code, 255) == Some(2int)
                &&& message.action is Expire ==> unsigned_number(code, 255) == Some(3int)
            },
{
    if let Some(message) = read {
        let text = decode_utf8(bytes@);
        lemma_bar_splits(text);
        let (source_id, r1) = split_bar(text)->0;
        lemma_bar_splits(r1);
        let (ticks, r2) = split_bar(r1)->0;
        lemma_bar_splits(r2);
        let (code, key) = split_bar(r2)->0;
        lemma_signed_fits(ticks);
        assert(text == message.source_id@ + seq!['|'] + (ticks + seq!['|'] + (code + seq!['|']
            + message.key@)));
    }
}

proof fn lemma_signed_fits(s: Seq<char>)
    ensures
        signed_number(s) matches Some(n) ==> i64::MIN <= n <= i64::MAX,
{
}

} // verus!
