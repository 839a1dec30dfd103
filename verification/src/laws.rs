//! What holds of every log call, whatever the feature and the message.

use vstd::prelude::*;
use crate::flag::enabled;
use crate::level::{Level, Stream};
use crate::line::{line_text, prefix, reset, separator, Emission};
use crate::log::emitted;

verus! {

/// Whether `text` is exactly one terminated line: it ends in a line break
/// and holds no other.
pub open spec fn single_line(text: Seq<char>) -> bool {
    &&& text.len() > 0
    &&& text.last() == '\n'
    &&& !text.drop_last().contains('\n')
}

/// The coloured tag never holds a line break.
proof fn lemma_prefix_has_no_break(level: Level)
    ensures
        !prefix(level).contains('\n'),
{
    reveal_strlit("\x1b[34m");
    reveal_strlit("\x1b[32m");
    reveal_strlit("\x1b[33m");
    reveal_strlit("\x1b[31m");
    reveal_strlit("[DEBUG]");
    reveal_strlit("[INFO]");
    reveal_strlit("[WARNING]");
    reveal_strlit("[ERROR]");
    reveal_strlit("\x1b[0m");
    reveal_strlit(" ");
}

/// While logging is disabled, no call at any level emits anything.
pub proof fn law_disabled_is_silent(
    flag: Option<bool>,
    level: Level,
    feature: Seq<char>,
    message: Seq<char>,
)
    requires
        !enabled(flag),
    ensures
        emitted(flag, level, feature, message) is None,
{
}

/// While logging is enabled, a call emits on the stream of its level
/// (standard output for debug and info, standard error for warning and
/// error) a text that holds, in this order: the colour of the level, its
/// tag, the reset, a space, the feature, the separator, the message, and
/// the line break that ends it.
pub proof fn law_enabled_emits_line(level: Level, feature: Seq<char>, message: Seq<char>)
    ensures
        emitted(Some(true), level, feature, message) matches Some(emission) && {
            let text = emission.text;
            let tag_at = level.color().len() as int;
            let feature_at = tag_at + level.tag().len() + reset().len() + 1;
            let separator_at = feature_at + feature.len();
            let message_at = separator_at + separator().len();
            let end_at = message_at + message.len();
            &&& emission.stream == match level {
                Level::Debug | Level::Info => Stream::Stdout,
                Level::Warning | Level::Error => Stream::Stderr,
            }
            &&& text.len() == end_at + 1
            &&& text.subrange(0, tag_at) == level.color()
            &&& text.subrange(tag_at, tag_at + level.tag().len()) == level.tag()
            &&& text.subrange(tag_at + level.tag().len(), feature_at - 1) == reset()
            &&& text[feature_at - 1] == ' '
            &&& text.subrange(feature_at, separator_at) == feature
            &&& text.subrange(separator_at, message_at) == separator()
            &&& text.subrange(message_at, end_at) == message
            &&& text[end_at] == '\n'
        },
{
    reveal_strlit(" ");
    reveal_strlit("\n");
}

/// The text of a call is exactly one line if and only if neither the
/// feature nor the message holds a line break of its own.
pub proof fn law_one_line(level: Level, feature: Seq<char>, message: Seq<char>)
    ensures
        single_line(line_text(level, feature, message)) <==> !feature.contains('\n')
            && !message.contains('\n'),
{
    lemma_prefix_has_no_break(level);
    reveal_strlit(" :: ");
    reveal_strlit("\n");
    let head = prefix(level);
    let body = line_text(level, feature, message).drop_last();
    assert(body == head + feature + separator() + message);
    // A line break inside the feature or the message is one inside the body.
    if feature.contains('\n') {
        let i = choose|i: int| 0 <= i < feature.len() && feature[i] == '\n';
        assert(body[head.len() + i] == '\n');
    }
    if message.contains('\n') {
        let i = choose|i: int| 0 <= i < message.len() && message[i] == '\n';
        assert(body[head.len() + feature.len() + separator().len() + i] == '\n');
    }
}

/// Logging keeps no state: two calls with the same flag, level, feature and
/// message emit the same thing, so a repeated call repeats its line.
pub proof fn law_repeat_emits_same(
    flag: Option<bool>,
    level: Level,
    feature: Seq<char>,
    message: Seq<char>,
    first: Option<Emission>,
    second: Option<Emission>,
)
    requires
        first.deep_view() == emitted(flag, level, feature, message),
        second.deep_view() == emitted(flag, level, feature, message),
    ensures
        first.deep_view() == second.deep_view(),
        first is Some <==> second is Some,
        first matches Some(a) ==> second matches Some(b) && a.stream == b.stream && a.text@
            == b.text@,
{
}

} // verus!
