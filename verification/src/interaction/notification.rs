use vstd::prelude::*;

verus! {

/// The reminders the pet gives every five to ten minutes.
pub open spec fn notification_messages() -> Seq<Seq<char>> {
    seq![
        "\u{8be5}\u{559d}\u{6c34}\u{5566}\u{ff01}\u{1f4a7}"@,
        "\u{4f11}\u{606f}\u{4e00}\u{4e0b}\u{773c}\u{775b}\u{5427}~"@,
        "\u{7ad9}\u{8d77}\u{6765}\u{6d3b}\u{52a8}\u{6d3b}\u{52a8}\u{ff01}"@,
        "\u{6df1}\u{547c}\u{5438}~\u{653e}\u{677e}\u{4e00}\u{4e0b}"@,
        "\u{8bb0}\u{5f97}\u{4fdd}\u{6301}\u{597d}\u{5fc3}\u{60c5}\u{54e6}\u{ff01}"@,
    ]
}

/// Picks one of the reminders at random.
pub fn random_notification() -> (m: &'static str)
    ensures
        notification_messages().contains(m@),
{
    let messages: Vec<&'static str> = vec![
        "\u{8be5}\u{559d}\u{6c34}\u{5566}\u{ff01}\u{1f4a7}",
        "\u{4f11}\u{606f}\u{4e00}\u{4e0b}\u{773c}\u{775b}\u{5427}~",
        "\u{7ad9}\u{8d77}\u{6765}\u{6d3b}\u{52a8}\u{6d3b}\u{52a8}\u{ff01}",
        "\u{6df1}\u{547c}\u{5438}~\u{653e}\u{677e}\u{4e00}\u{4e0b}",
        "\u{8bb0}\u{5f97}\u{4fdd}\u{6301}\u{597d}\u{5fc3}\u{60c5}\u{54e6}\u{ff01}",
    ];
    let idx = crate::random::random_index(messages.len());
    let m = messages[idx];
    assert(notification_messages()[idx as int] == m@);
    m
}

} // verus!
