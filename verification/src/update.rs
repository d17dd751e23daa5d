//! Is there a newer release?
use crate::json::{json_string, json_value, parse, string_under};
use crate::text::{
    decimal, law_decimal_round_trip, parse_unsigned, parsed_unsigned, trim_start_char,
    without_leading,
};
use vstd::prelude::*;

verus! {

/// A release that is newer than the running program.
#[derive(Debug)]
pub struct UpdateInfo {
    pub version: String,
    pub url: String,
}

/// The length of the text before the first dot.
pub open spec fn dot_index(s: Seq<char>) -> nat
    decreases s.len(),
{
    if s.len() == 0 || s.first() == '.' {
        0
    } else {
        1 + dot_index(s.drop_first())
    }
}

/// The text before the first dot.
pub open spec fn first_part(s: Seq<char>) -> Seq<char> {
    s.take(dot_index(s) as int)
}

/// The text after the first dot; empty where there is none.
pub open spec fn other_parts(s: Seq<char>) -> Seq<char> {
    if dot_index(s) < s.len() {
        s.skip(dot_index(s) as int + 1)
    } else {
        Seq::empty()
    }
}

/// A part of a version; one that is no number counts as zero.
pub open spec fn part_value(s: Seq<char>) -> nat {
    match parsed_unsigned(s, u32::MAX as nat) {
        Some(value) => value,
        None => 0,
    }
}

/// The three leading parts of a version, which may be marked by a leading `v`.
pub open spec fn parsed_version(v: Seq<char>) -> (nat, nat, nat) {
    let s = without_leading(v, 'v');
    (
        part_value(first_part(s)),
        part_value(first_part(other_parts(s))),
        part_value(first_part(other_parts(other_parts(s)))),
    )
}

/// Is version `a` newer than version `b`?
pub open spec fn newer(a: (nat, nat, nat), b: (nat, nat, nat)) -> bool {
    a.0 > b.0 || (a.0 == b.0 && (a.1 > b.1 || (a.1 == b.1 && a.2 > b.2)))
}

proof fn lemma_dot_index(s: Seq<char>, n: nat)
    requires
        n <= s.len(),
        forall|i: int| 0 <= i < n ==> s[i] != '.',
        n == s.len() || s[n as int] == '.',
    ensures
        dot_index(s) == n,
    decreases n,
{
    if n > 0 {
        assert forall|i: int| 0 <= i < n - 1 implies s.drop_first()[i] != '.' by {
            assert(s.drop_first()[i] == s[i + 1]);
        }
        lemma_dot_index(s.drop_first(), (n - 1) as nat);
    }
}

/// Splits at the first dot.
fn split_dot(s: &str) -> (parts: (&str, &str))
    ensures
        parts.0@ == first_part(s@),
        parts.1@ == other_parts(s@),
{
    let n: usize = s.unicode_len();
    let mut i: usize = 0;
    while i < n && s.get_char(i) != '.'
        invariant
            i <= n,
            n == s@.len(),
            forall|k: int| 0 <= k < i ==> s@[k] != '.',
        decreases n - i,
    {
        i = i + 1;
    }
    proof {
        lemma_dot_index(s@, i as nat);
    }
    let rest: usize = if i < n {
        i + 1
    } else {
        n
    };
    assert(s@.subrange(0, i as int) =~= first_part(s@));
    assert(s@.subrange(rest as int, n as int) =~= other_parts(s@));
    (s.substring_char(0, i), s.substring_char(rest, n))
}

fn part(s: &str) -> (value: u32)
    ensures
        value == part_value(s@),
{
    match parse_unsigned(s, u32::MAX) {
        Some(value) => value,
        None => 0,
    }
}

/// The three leading parts of a version.
pub fn parse_ver(v: &str) -> (version: (u32, u32, u32))
    ensures
        (version.0 as nat, version.1 as nat, version.2 as nat) == parsed_version(v@),
{
    let (major, rest) = split_dot(trim_start_char(v, 'v'));
    let (minor, rest) = split_dot(rest);
    let (patch, _) = split_dot(rest);
    (part(major), part(minor), part(patch))
}

/// Is version `a` newer than version `b`?
pub fn is_newer(a: (u32, u32, u32), b: (u32, u32, u32)) -> (yes: bool)
    ensures
        yes == newer(
            (a.0 as nat, a.1 as nat, a.2 as nat),
            (b.0 as nat, b.1 as nat, b.2 as nat),
        ),
{
    a.0 > b.0 || (a.0 == b.0 && (a.1 > b.1 || (a.1 == b.1 && a.2 > b.2)))
}

/// Is this what is offered of a release: its version and its page where it is newer than the
/// running version, and else nothing?
pub open spec fn offers(
    update: Option<UpdateInfo>,
    tag: Seq<char>,
    page: Seq<char>,
    running: Seq<char>,
) -> bool {
    &&& update is Some <==> newer(parsed_version(tag), parsed_version(running))
    &&& update matches Some(info) ==> info.version@ == without_leading(tag, 'v') && info.url@
        == page
}

/// Offers the release of the given tag if it is newer than the running version.
pub fn newer_release(tag: &str, page: &str, running: &str) -> (update: Option<UpdateInfo>)
    ensures
        offers(update, tag@, page@, running@),
{
    let version: &str = trim_start_char(tag, 'v');
    proof {
        lemma_without_leading_twice(tag@, 'v');
    }
    if is_newer(parse_ver(version), parse_ver(running)) {
        Some(UpdateInfo { version: version.to_owned(), url: page.to_owned() })
    } else {
        None
    }
}

proof fn lemma_without_leading_twice(s: Seq<char>, c: char)
    ensures
        without_leading(without_leading(s, c), c) == without_leading(s, c),
    decreases s.len(),
{
    if s.len() > 0 && s.first() == c {
        lemma_without_leading_twice(s.drop_first(), c);
    }
}

/// What the description of the latest release says: its tag and its page.
pub open spec fn release_of(body: Seq<char>) -> Option<(Seq<char>, Seq<char>)> {
    match json_value(body) {
        Some(value) => match (json_string(value, "tag_name"@), json_string(value, "html_url"@)) {
            (Some(tag), Some(page)) => Some((tag, page)),
            _ => None,
        },
        None => None,
    }
}

/// Reads the description of the latest release and offers it if it is newer than the running
/// version. A description without tag or page offers nothing.
pub fn check_for_update(body: &str, running: &str) -> (update: Option<UpdateInfo>)
    ensures
        match release_of(body@) {
            Some((tag, page)) => offers(update, tag, page, running@),
            None => update is None,
        },
{
    match parse(body) {
        Ok(value) => {
            match (string_under(&value, "tag_name"), string_under(&value, "html_url")) {
                (Some(tag), Some(page)) => newer_release(tag, page, running),
                _ => None,
            }
        },
        Err(_) => None,
    }
}

/// The address at which the latest release is described.
pub fn release_url() -> (url: &'static str)
    ensures
        url == "https://api.github.com/repos/LakoMoor/RBridger/releases/latest",
{
    "https://api.github.com/repos/LakoMoor/RBridger/releases/latest"
}

/// How the program introduces itself when it asks for the latest release.
pub fn user_agent(version: &str) -> (agent: String)
    ensures
        agent@ == "rbridger/"@ + version@,
{
    "rbridger/".to_owned().concat(version)
}

/// What the about page says of updates.
#[derive(Clone, Copy, Debug, PartialEq, Eq, Structural)]
pub enum UpdateNote {
    Checking,
    Available,
    Unknown,
}

/// The search for an update, and what came of it.
#[derive(Debug)]
pub struct UpdateCheck {
    /// Is a search going on?
    pub checking: bool,
    /// The update that is known.
    pub known: Option<UpdateInfo>,
    /// Is the user being told of it?
    pub open: bool,
}

impl UpdateCheck {
    pub open spec fn after_found(self, result: Option<UpdateInfo>) -> UpdateCheck {
        match result {
            Some(info) => UpdateCheck { checking: false, known: Some(info), open: true },
            None => UpdateCheck { checking: false, ..self },
        }
    }

    pub open spec fn after_press_check(self) -> UpdateCheck {
        if !self.checking && self.known is None {
            UpdateCheck { checking: true, ..self }
        } else {
            self
        }
    }

    pub open spec fn after_press_release(self) -> UpdateCheck {
        if !self.checking && self.known is Some {
            UpdateCheck { open: true, ..self }
        } else {
            self
        }
    }

    /// The program starts with a search.
    pub fn new() -> (check: UpdateCheck)
        ensures
            check == (UpdateCheck { checking: true, known: None, open: false }),
    {
        UpdateCheck { checking: true, known: None, open: false }
    }

    /// A search is over. An update that it found is the one known from then on, and the user is
    /// told of it; a search that found none changes nothing else.
    pub fn found(&mut self, result: Option<UpdateInfo>)
        ensures
            *final(self) == old(self).after_found(result),
    {
        self.checking = false;
        if let Some(info) = result {
            self.known = Some(info);
            self.open = true;
        }
    }

    /// What the about page says.
    pub fn note(&self) -> (note: UpdateNote)
        ensures
            note == if self.checking {
                UpdateNote::Checking
            } else if self.known is Some {
                UpdateNote::Available
            } else {
                UpdateNote::Unknown
            },
    {
        if self.checking {
            UpdateNote::Checking
        } else if self.known.is_some() {
            UpdateNote::Available
        } else {
            UpdateNote::Unknown
        }
    }

    /// The button that looks for updates, which is there while no search goes on and no update is
    /// known. Says whether a search is to be started.
    pub fn press_check(&mut self) -> (start: bool)
        ensures
            start == (!old(self).checking && old(self).known is None),
            *final(self) == old(self).after_press_check(),
    {
        let start: bool = !self.checking && self.known.is_none();
        if start {
            self.checking = true;
        }
        start
    }

    /// The button that shows the release page, which is there while no search goes on and an
    /// update is known: the user is told of it once more.
    pub fn press_release(&mut self)
        ensures
            *final(self) == old(self).after_press_release(),
    {
        if !self.checking && self.known.is_some() {
            self.open = true;
        }
    }

    /// What the user is being told of, if anything.
    pub fn shown(&self) -> (info: Option<&UpdateInfo>)
        ensures
            info matches Some(shown) ==> self.open && self.known == Some(*shown),
            info is None ==> !self.open || self.known is None,
    {
        if self.open {
            match &self.known {
                Some(info) => Some(info),
                None => None,
            }
        } else {
            None
        }
    }
}

/// Being newer is a strict order: no version is newer than itself, of two different versions
/// exactly one is newer, and the order is transitive.
pub proof fn law_newer_is_strict_order(
    a: (nat, nat, nat),
    b: (nat, nat, nat),
    c: (nat, nat, nat),
)
    ensures
        !newer(a, a),
        a != b ==> (newer(a, b) <==> !newer(b, a)),
        newer(a, b) && newer(b, c) ==> newer(a, c),
{
}

/// A version that is written as three numbers is read as those numbers, with or without the
/// leading `v`, and whatever follows after another dot.
pub proof fn law_version_round_trip(a: u32, b: u32, c: u32, more: Seq<char>)
    ensures
        ({
            let plain = decimal(a as nat) + seq!['.'] + decimal(b as nat) + seq!['.'] + decimal(
                c as nat,
            );
            &&& parsed_version(plain) == (a as nat, b as nat, c as nat)
            &&& parsed_version(seq!['v'] + plain) == (a as nat, b as nat, c as nat)
            &&& parsed_version(plain + seq!['.'] + more) == (a as nat, b as nat, c as nat)
            &&& parsed_version(seq!['v'] + plain + seq!['.'] + more) == (
                a as nat,
                b as nat,
                c as nat,
            )
        }),
{
    let plain = decimal(a as nat) + seq!['.'] + decimal(b as nat) + seq!['.'] + decimal(c as nat);
    let tail = seq!['.'] + more;
    lemma_three_parts(a, b, c, Seq::empty());
    lemma_three_parts(a, b, c, tail);
    assert(plain + Seq::<char>::empty() =~= plain);
    assert(plain + tail =~= plain + seq!['.'] + more);
    assert((seq!['v'] + plain).drop_first() =~= plain);
    assert((seq!['v'] + plain + seq!['.'] + more).drop_first() =~= plain + tail);
}

/// Three numbers are read from a text that ends after them or goes on with a dot.
proof fn lemma_three_parts(a: u32, b: u32, c: u32, tail: Seq<char>)
    requires
        tail.len() > 0 ==> tail[0] == '.',
    ensures
        ({
            let text = decimal(a as nat) + seq!['.'] + decimal(b as nat) + seq!['.'] + decimal(
                c as nat,
            ) + tail;
            &&& parsed_version(text) == (a as nat, b as nat, c as nat)
            &&& without_leading(text, 'v') == text
        }),
{
    let x = decimal(a as nat);
    let y = decimal(b as nat);
    let z = decimal(c as nat);
    let text = x + seq!['.'] + y + seq!['.'] + z + tail;
    lemma_decimal_has_no_dot(a as nat);
    lemma_decimal_has_no_dot(b as nat);
    lemma_decimal_has_no_dot(c as nat);
    law_decimal_round_trip(a as nat, u32::MAX as nat);
    law_decimal_round_trip(b as nat, u32::MAX as nat);
    law_decimal_round_trip(c as nat, u32::MAX as nat);
    let last = z + tail;
    let rest = y + (seq!['.'] + last);
    assert(text =~= x + (seq!['.'] + rest));
    assert((seq!['.'] + rest).drop_first() =~= rest);
    assert((seq!['.'] + last).drop_first() =~= last);
    lemma_first_part(x, seq!['.'] + rest);
    lemma_first_part(y, seq!['.'] + last);
    lemma_first_part(z, tail);
    assert(text[0] == x[0]);
}

/// A part ends at the end of the text or at the next dot.
proof fn lemma_first_part(part: Seq<char>, tail: Seq<char>)
    requires
        forall|i: int| 0 <= i < part.len() ==> part[i] != '.',
        tail.len() > 0 ==> tail[0] == '.',
    ensures
        first_part(part + tail) == part,
        tail.len() > 0 ==> other_parts(part + tail) == tail.drop_first(),
        tail.len() == 0 ==> other_parts(part + tail).len() == 0,
{
    let s = part + tail;
    lemma_dot_index(s, part.len());
    assert(first_part(s) =~= part);
    if tail.len() > 0 {
        assert(other_parts(s) =~= tail.drop_first());
    }
}

proof fn lemma_decimal_has_no_dot(n: nat)
    ensures
        decimal(n).len() > 0,
        forall|i: int| 0 <= i < decimal(n).len() ==> decimal(n)[i] != '.' && decimal(n)[i] != 'v',
    decreases n,
{
    if n >= 10 {
        lemma_decimal_has_no_dot(n / 10);
    }
}

/// Of two versions the one that is larger in the first part in which they differ is the newer one.
pub proof fn law_first_difference_decides(a: (nat, nat, nat), b: (nat, nat, nat))
    ensures
        a.0 > b.0 ==> newer(a, b) && !newer(b, a),
        a.0 == b.0 && a.1 > b.1 ==> newer(a, b) && !newer(b, a),
        a.0 == b.0 && a.1 == b.1 && a.2 > b.2 ==> newer(a, b) && !newer(b, a),
{
}

/// Each part of a version is read on its own: a part that is a number is that number, and one that
/// is missing or is no number counts as zero, whatever the others are.
pub proof fn law_parts_are_read_on_their_own(x: Seq<char>, y: Seq<char>, z: Seq<char>)
    requires
        forall|i: int| 0 <= i < x.len() ==> x[i] != '.',
        forall|i: int| 0 <= i < y.len() ==> y[i] != '.',
        forall|i: int| 0 <= i < z.len() ==> z[i] != '.',
        x.len() > 0 ==> x[0] != 'v',
    ensures
        ({
            let read = |part: Seq<char>|
                match parsed_unsigned(part, 0xffff_ffff) {
                    Some(value) => value,
                    None => 0nat,
                };
            &&& parsed_version(x + seq!['.'] + y + seq!['.'] + z) == (read(x), read(y), read(z))
            &&& parsed_version(x + seq!['.'] + y) == (read(x), read(y), 0nat)
            &&& parsed_version(x) == (read(x), 0nat, 0nat)
        }),
{
    let empty = Seq::<char>::empty();
    let two = x + seq!['.'] + y;
    let three = x + seq!['.'] + y + seq!['.'] + z;
    let rest = y + (seq!['.'] + z);
    assert(x + empty =~= x && y + empty =~= y && z + empty =~= z && empty + empty =~= empty);
    lemma_first_part(empty, empty);
    lemma_first_part(x, empty);
    lemma_first_part(y, empty);
    lemma_first_part(z, empty);
    assert(other_parts(x) =~= empty && other_parts(y) =~= empty);
    assert(other_parts(empty) =~= empty);
    assert(two =~= x + (seq!['.'] + y));
    assert((seq!['.'] + y).drop_first() =~= y);
    lemma_first_part(x, seq!['.'] + y);
    assert(three =~= x + (seq!['.'] + rest));
    assert((seq!['.'] + rest).drop_first() =~= rest);
    lemma_first_part(x, seq!['.'] + rest);
    assert((seq!['.'] + z).drop_first() =~= z);
    lemma_first_part(y, seq!['.'] + z);
    assert(two[0] == if x.len() > 0 { x[0] } else { '.' });
    assert(three[0] == if x.len() > 0 { x[0] } else { '.' });
    assert(without_leading(x, 'v') == x);
    assert(without_leading(two, 'v') == two);
    assert(without_leading(three, 'v') == three);
}

/// A release is described by its tag and its page, both of which have to be there.
pub proof fn law_release_needs_tag_and_page(body: Seq<char>)
    ensures
        release_of(body) matches Some((tag, page)) ==> {
            &&& json_value(body) matches Some(value)
            &&& json_string(value, "tag_name"@) == Some(tag)
            &&& json_string(value, "html_url"@) == Some(page)
        },
        json_value(body) matches Some(value) ==> (json_string(value, "tag_name"@) is Some
            && json_string(value, "html_url"@) is Some ==> release_of(body) is Some),
{
}

/// A release is offered exactly if it is newer than the running version, under its own version and
/// page; the running version itself never is, however it is marked.
pub proof fn law_only_newer_releases_are_offered(
    update: Option<UpdateInfo>,
    tag: Seq<char>,
    page: Seq<char>,
    running: Seq<char>,
)
    requires
        offers(update, tag, page, running),
    ensures
        newer(parsed_version(tag), parsed_version(running)) ==> update is Some,
        !newer(parsed_version(tag), parsed_version(running)) ==> update is None,
        parsed_version(tag) == parsed_version(running) ==> update is None,
        update matches Some(info) ==> info.url@ == page && parsed_version(info.version@)
            == parsed_version(tag) && !(info.version@.len() > 0 && info.version@[0] == 'v') && exists|
            n: int|
            0 <= n <= tag.len() && info.version@ == #[trigger] tag.skip(n),
{
    lemma_without_leading_twice(tag, 'v');
    lemma_without_leading_is_rest(tag, 'v');
}

proof fn lemma_without_leading_is_rest(s: Seq<char>, c: char)
    ensures
        without_leading(s, c).len() > 0 ==> without_leading(s, c)[0] != c,
        exists|n: int| 0 <= n <= s.len() && without_leading(s, c) == #[trigger] s.skip(n),
    decreases s.len(),
{
    if s.len() > 0 && s.first() == c {
        let rest = s.drop_first();
        lemma_without_leading_is_rest(rest, c);
        let n = choose|n: int|
            0 <= n <= rest.len() && without_leading(rest, c) == #[trigger] rest.skip(n);
        assert(s.skip(n + 1) =~= rest.skip(n));
    } else {
        assert(s.skip(0) =~= s);
    }
}

/// An update that is known stays known until another one is found; a search is over with its
/// result and starts only where none goes on and nothing is known; and the user is told of nothing
/// without one of these.
pub proof fn law_update_stays_known(check: UpdateCheck, result: Option<UpdateInfo>)
    ensures
        !check.after_found(result).checking,
        result is Some ==> check.after_found(result).known == result && check.after_found(
            result,
        ).open,
        result is None ==> check.after_found(result).known == check.known && check.after_found(
            result,
        ).open == check.open,
        check.after_press_check().known == check.known,
        check.after_press_check().open == check.open,
        check.after_press_check().checking <==> check.checking || check.known is None,
        check.after_press_release().known == check.known,
        check.after_press_release().checking == check.checking,
        check.after_press_release().open <==> check.open || (!check.checking && check.known is Some),
{
}

} // verus!
