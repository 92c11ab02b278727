//! The wire discriminants of the channel variants, with a stable name per
//! variant; used only for decode dispatch and display.

use vstd::prelude::*;

verus! {

/// A representation of a type of channel, as carried in a wire record's
/// type field.
#[derive(Clone, Copy, Debug, PartialEq, Eq, Structural, Hash)]
pub enum ChannelType {
    /// A text channel within a guild.
    Text,
    /// A private channel to a single other user.
    Private,
    /// A voice channel within a guild.
    Voice,
    /// The channel of a group.
    Group,
    /// A category of guild channels.
    Category,
}

impl ChannelType {
    /// The wire discriminant of this channel type.
    pub open spec fn spec_number(self) -> u64 {
        match self {
            ChannelType::Text => 0,
            ChannelType::Private => 1,
            ChannelType::Voice => 2,
            ChannelType::Group => 3,
            ChannelType::Category => 4,
        }
    }

    /// The channel type a wire discriminant selects, if any.
    pub open spec fn spec_from_number(n: u64) -> Option<ChannelType> {
        if n == 0 {
            Some(ChannelType::Text)
        } else if n == 1 {
            Some(ChannelType::Private)
        } else if n == 2 {
            Some(ChannelType::Voice)
        } else if n == 3 {
            Some(ChannelType::Group)
        } else if n == 4 {
            Some(ChannelType::Category)
        } else {
            None
        }
    }

    /// Returns the wire discriminant of this channel type.
    pub fn number(&self) -> (r: u64)
        ensures
            r == self.spec_number(),
    {
        match self {
            ChannelType::Text => 0,
            ChannelType::Private => 1,
            ChannelType::Voice => 2,
            ChannelType::Group => 3,
            ChannelType::Category => 4,
        }
    }

    /// Maps a wire discriminant to its channel type, `None` outside the
    /// known set.
    pub fn from_number(n: u64) -> (r: Option<ChannelType>)
        ensures
            r == Self::spec_from_number(n),
    {
        if n == 0 {
            Some(ChannelType::Text)
        } else if n == 1 {
            Some(ChannelType::Private)
        } else if n == 2 {
            Some(ChannelType::Voice)
        } else if n == 3 {
            Some(ChannelType::Group)
        } else if n == 4 {
            Some(ChannelType::Category)
        } else {
            None
        }
    }

    /// The stable display name of this channel type.
    pub fn name(&self) -> (r: &'static str)
        ensures
            self is Text ==> r@ == "text"@,
            self is Private ==> r@ == "private"@,
            self is Voice ==> r@ == "voice"@,
            self is Group ==> r@ == "group"@,
            self is Category ==> r@ == "category"@,
    {
        match self {
            ChannelType::Group => "group",
            ChannelType::Private => "private",
            ChannelType::Text => "text",
            ChannelType::Voice => "voice",
            ChannelType::Category => "category",
        }
    }
}

} // verus!
