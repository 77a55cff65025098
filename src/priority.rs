use vstd::prelude::*;

verus! {

/// How urgently the service should present a notification.
#[derive(Debug, Clone, Copy, PartialEq, Eq, Structural)]
pub enum Priority {
    /// Generate no notification or alert.
    NoNotification,
    /// Always send as a quiet notification.
    QuietNotification,
    /// Display as high-priority and bypass the user's quiet hours.
    HighPriority,
    /// Also require confirmation from the user.
    RequireConfirmation,
}

/// The integer the service expects for each level.
pub open spec fn wire_value(p: Priority) -> int {
    match p {
        Priority::NoNotification => -2,
        Priority::QuietNotification => -1,
        Priority::HighPriority => 1,
        Priority::RequireConfirmation => 2,
    }
}

/// The decimal text of `wire_value`, as it appears in a form body.
pub open spec fn wire_text(p: Priority) -> Seq<char> {
    match p {
        Priority::NoNotification => seq!['-', '2'],
        Priority::QuietNotification => seq!['-', '1'],
        Priority::HighPriority => seq!['1'],
        Priority::RequireConfirmation => seq!['2'],
    }
}

/// The variant's name, as a derived `Debug` writes it.
pub open spec fn variant_name(p: Priority) -> Seq<char> {
    match p {
        Priority::NoNotification => "NoNotification"@,
        Priority::QuietNotification => "QuietNotification"@,
        Priority::HighPriority => "HighPriority"@,
        Priority::RequireConfirmation => "RequireConfirmation"@,
    }
}

impl Priority {
    /// The wire value of this level.
    pub fn encode(&self) -> (r: i8)
        ensures
            r as int == wire_value(*self),
    {
        match self {
            Priority::NoNotification => -2,
            Priority::QuietNotification => -1,
            Priority::HighPriority => 1,
            Priority::RequireConfirmation => 2,
        }
    }

    /// The wire value of this level as decimal text.
    pub fn encode_text(&self) -> (r: String)
        ensures
            r@ == wire_text(*self),
    {
        let r = match self {
            Priority::NoNotification => String::from_str("-2"),
            Priority::QuietNotification => String::from_str("-1"),
            Priority::HighPriority => String::from_str("1"),
            Priority::RequireConfirmation => String::from_str("2"),
        };
        proof {
            reveal_strlit("-2");
            reveal_strlit("-1");
            reveal_strlit("1");
            reveal_strlit("2");
        }
        assert(r@ =~= wire_text(*self));
        r
    }

    /// The variant's name.
    pub fn name(&self) -> (r: String)
        ensures
            r@ == variant_name(*self),
    {
        match self {
            Priority::NoNotification => String::from_str("NoNotification"),
            Priority::QuietNotification => String::from_str("QuietNotification"),
            Priority::HighPriority => String::from_str("HighPriority"),
            Priority::RequireConfirmation => String::from_str("RequireConfirmation"),
        }
    }
}

} // verus!
