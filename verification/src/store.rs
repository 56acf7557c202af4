// The text form in which the local cache keeps channel types and visibilities.

use vstd::prelude::*;

use crate::text::str_eq;
use crate::types::{ChannelType, ChannelVisibility};

verus! {

/// The channel type a stored or received name stands for: `"forum"` and
/// `"dm"` name their types, anything else is a stream.
pub open spec fn channel_type_named(s: Seq<char>) -> ChannelType {
    if s == "forum"@ {
        ChannelType::Forum
    } else if s == "dm"@ {
        ChannelType::Dm
    } else {
        ChannelType::Stream
    }
}

/// The visibility a stored or received name stands for: `"private"` names a
/// private channel, anything else an open one.
pub open spec fn visibility_named(s: Seq<char>) -> ChannelVisibility {
    if s == "private"@ {
        ChannelVisibility::Private
    } else {
        ChannelVisibility::Open
    }
}

/// The name under which a channel type is stored.
pub open spec fn channel_type_name(ct: ChannelType) -> Seq<char> {
    match ct {
        ChannelType::Stream => "stream"@,
        ChannelType::Forum => "forum"@,
        ChannelType::Dm => "dm"@,
    }
}

/// The name under which a visibility is stored.
pub open spec fn visibility_name(v: ChannelVisibility) -> Seq<char> {
    match v {
        ChannelVisibility::Open => "open"@,
        ChannelVisibility::Private => "private"@,
    }
}

/// The name under which a channel type is stored.
pub fn channel_type_str(ct: &ChannelType) -> (r: &'static str)
    ensures
        r@ == channel_type_name(*ct),
{
    match ct {
        ChannelType::Stream => "stream",
        ChannelType::Forum => "forum",
        ChannelType::Dm => "dm",
    }
}

/// The name under which a visibility is stored.
pub fn visibility_str(v: &ChannelVisibility) -> (r: &'static str)
    ensures
        r@ == visibility_name(*v),
{
    match v {
        ChannelVisibility::Open => "open",
        ChannelVisibility::Private => "private",
    }
}

/// The channel type a stored name stands for.
pub fn parse_channel_type(s: &str) -> (r: ChannelType)
    ensures
        r == channel_type_named(s@),
{
    if str_eq(s, "forum") {
        ChannelType::Forum
    } else if str_eq(s, "dm") {
        ChannelType::Dm
    } else {
        ChannelType::Stream
    }
}

/// The visibility a stored name stands for.
pub fn parse_visibility(s: &str) -> (r: ChannelVisibility)
    ensures
        r == visibility_named(s@),
{
    if str_eq(s, "private") {
        ChannelVisibility::Private
    } else {
        ChannelVisibility::Open
    }
}

/// Storing a channel type by its name and reading the name back gives the
/// same channel type.
pub proof fn law_channel_type_roundtrip(ct: ChannelType)
    ensures
        channel_type_named(channel_type_name(ct)) == ct,
{
    reveal_strlit("stream");
    reveal_strlit("forum");
    reveal_strlit("dm");
    assert("stream"@ != "forum"@ && "stream"@ != "dm"@ && "forum"@ != "dm"@) by {
        assert("stream"@.len() == 6);
        assert("forum"@.len() == 5);
        assert("dm"@.len() == 2);
    }
}

/// Storing a visibility by its name and reading the name back gives the same
/// visibility.
pub proof fn law_visibility_roundtrip(v: ChannelVisibility)
    ensures
        visibility_named(visibility_name(v)) == v,
{
    reveal_strlit("open");
    reveal_strlit("private");
    assert("open"@ != "private"@) by {
        assert("open"@.len() == 4);
        assert("private"@.len() == 7);
    }
}

/// Only the name `forum` stands for a forum and only `dm` for a direct
/// message channel; every other name, `stream` among them, is a stream.
pub proof fn law_channel_type_names(s: Seq<char>)
    ensures
        channel_type_named(s) == ChannelType::Forum <==> s == "forum"@,
        channel_type_named(s) == ChannelType::Dm <==> s == "dm"@,
        channel_type_named(s) == ChannelType::Stream <==> (s != "forum"@ && s != "dm"@),
        channel_type_named("stream"@) == ChannelType::Stream,
{
    reveal_strlit("stream");
    reveal_strlit("forum");
    reveal_strlit("dm");
    assert("stream"@ != "forum"@ && "stream"@ != "dm"@ && "forum"@ != "dm"@) by {
        assert("stream"@.len() == 6);
        assert("forum"@.len() == 5);
        assert("dm"@.len() == 2);
    }
}

/// Only the name `private` stands for a private channel; every other name,
/// `open` among them, is an open one.
pub proof fn law_visibility_names(s: Seq<char>)
    ensures
        visibility_named(s) == ChannelVisibility::Private <==> s == "private"@,
        visibility_named(s) == ChannelVisibility::Open <==> s != "private"@,
        visibility_named("open"@) == ChannelVisibility::Open,
{
    reveal_strlit("open");
    reveal_strlit("private");
    assert("open"@ != "private"@) by {
        assert("open"@.len() == 4);
        assert("private"@.len() == 7);
    }
}

} // verus!
