//! The configuration of the downloader: the whitelist of devices that may be
//! downloaded from, and the path of the database.
//!
//! The configuration text holds one entry to a line: a key, white space, a
//! value, and after a `#` a comment. Lines that are empty or start with `#`
//! say nothing.

use crate::text::{hex_padded, push_hex_padded, push_text};
use vstd::hash_map::StringHashMap;
use vstd::prelude::*;
use vstd::string::StrSliceExecFns;

verus! {

/// The character is white space: it has the Unicode property White_Space.
/// These are the space and the five control characters from the horizontal
/// tab to the carriage return, the next-line control, the no-break space, the
/// Ogham space mark, the spaces from the en quad to the hair space, the line
/// and the paragraph separator, the narrow no-break space, the medium
/// mathematical space and the ideographic space.
pub open spec fn is_whitespace(c: char) -> bool {
    let code = c as u32;
    ||| 0x0009 <= code <= 0x000D
    ||| code == 0x0020
    ||| code == 0x0085
    ||| code == 0x00A0
    ||| code == 0x1680
    ||| 0x2000 <= code <= 0x200A
    ||| code == 0x2028
    ||| code == 0x2029
    ||| code == 0x202F
    ||| code == 0x205F
    ||| code == 0x3000
}

/// `char::is_whitespace` tells whether the character has the Unicode
/// property White_Space; the contract lists the code points of that property.
pub assume_specification[ char::is_whitespace ](c: char) -> (b: bool)
    ensures
        b == is_whitespace(c),
;

/// The configuration of the downloader.
pub struct Config {
    /// Whitelist entries: `vendor_0xVVVV_device_0xPPPP`, with the two ids as
    /// four lower-case hexadecimal digits each, mapped to whether that device
    /// is enabled.
    pub devices: StringHashMap<bool>,
    /// Path of the database file, where the configuration names one.
    pub database_path: Option<String>,
}

/// A `Config` with its texts as sequences of characters.
pub struct ConfigView {
    pub devices: Map<Seq<char>, bool>,
    pub database_path: Option<Seq<char>>,
}

impl View for Config {
    type V = ConfigView;

    open spec fn view(&self) -> ConfigView {
        ConfigView {
            devices: self.devices@,
            database_path: match self.database_path {
                Some(path) => Some(path@),
                None => None,
            },
        }
    }
}

/// The whitelist key of a vendor and product pair.
pub open spec fn device_key(vendor_id: u16, device_id: u16) -> Seq<char> {
    "vendor_0x"@ + hex_padded(vendor_id as nat, false, 4) + "_device_0x"@ + hex_padded(
        device_id as nat,
        false,
        4,
    )
}

/// A class of characters that the reader of the configuration text tells
/// apart.
#[derive(Debug, Clone, Copy, PartialEq, Eq, Structural)]
pub enum CharClass {
    /// White space.
    Space,
    /// Anything but white space.
    NotSpace,
    /// Anything but `#`.
    NotComment,
    /// Anything but a line feed.
    NotLineFeed,
}

impl CharClass {
    /// The character belongs to the class.
    pub open spec fn holds(self, c: char) -> bool {
        match self {
            CharClass::Space => is_whitespace(c),
            CharClass::NotSpace => !is_whitespace(c),
            CharClass::NotComment => c != '#',
            CharClass::NotLineFeed => c != '\n',
        }
    }

    /// Tells whether the character belongs to the class.
    pub fn has(self, c: char) -> (b: bool)
        ensures
            b == self.holds(c),
    {
        match self {
            CharClass::Space => c.is_whitespace(),
            CharClass::NotSpace => !c.is_whitespace(),
            CharClass::NotComment => c != '#',
            CharClass::NotLineFeed => c != '\n',
        }
    }
}

/// The number of characters at the head of `s` that belong to `class`, up
/// to the first that does not.
pub open spec fn head_run(s: Seq<char>, class: CharClass) -> nat
    decreases s.len(),
{
    if s.len() > 0 && class.holds(s[0]) {
        1 + head_run(s.drop_first(), class)
    } else {
        0
    }
}

/// The number of characters at the end of `s` that belong to `class`, back
/// to the last that does not.
pub open spec fn tail_run(s: Seq<char>, class: CharClass) -> nat
    decreases s.len(),
{
    if s.len() > 0 && class.holds(s.last()) {
        1 + tail_run(s.drop_last(), class)
    } else {
        0
    }
}

/// `s` without the white space at its head and at its end.
pub open spec fn trimmed(s: Seq<char>) -> Seq<char> {
    let rest = s.skip(head_run(s, CharClass::Space) as int);
    rest.take(rest.len() - tail_run(rest, CharClass::Space))
}

/// The number of characters of `s` before the first white-space character,
/// or the length of `s` where it has none.
pub open spec fn before_space(s: Seq<char>) -> nat {
    head_run(s, CharClass::NotSpace)
}

/// The number of characters of `s` before the first `#`, or the length of
/// `s` where it has none.
pub open spec fn before_comment(s: Seq<char>) -> nat {
    head_run(s, CharClass::NotComment)
}

/// The number of characters of `s` before the first line feed, or the length
/// of `s` where it has none.
pub open spec fn before_line_feed(s: Seq<char>) -> nat {
    head_run(s, CharClass::NotLineFeed)
}

/// The key and the rest of a line: what stands before the first white-space
/// character, and what follows it, trimmed; nothing where the line has no white
/// space or one of the two is empty.
pub open spec fn key_and_rest(line: Seq<char>) -> Option<(Seq<char>, Seq<char>)> {
    let cut = before_space(line);
    if cut >= line.len() {
        None
    } else {
        let key = trimmed(line.take(cut as int));
        let rest = trimmed(line.skip(cut + 1int));
        if key.len() == 0 || rest.len() == 0 {
            None
        } else {
            Some((key, rest))
        }
    }
}

/// What a line of the configuration text says.
pub enum LineEntry {
    /// Nothing: the line is empty, a comment, or no entry.
    Nothing,
    /// The path of the database.
    DatabasePath(Seq<char>),
    /// A whitelist entry: a key, and whether its value is `1`.
    Device(Seq<char>, bool),
}

/// What a line of the configuration text says. The value of an entry ends
/// before the first `#` that follows the key.
pub open spec fn line_entry(line: Seq<char>) -> LineEntry {
    let text = trimmed(line);
    if text.len() == 0 || text[0] == '#' {
        LineEntry::Nothing
    } else {
        match key_and_rest(text) {
            None => LineEntry::Nothing,
            Some((key, rest)) => {
                let value = trimmed(rest.take(before_comment(rest) as int));
                if key == "database_path"@ {
                    LineEntry::DatabasePath(value)
                } else {
                    LineEntry::Device(key, value == "1"@)
                }
            },
        }
    }
}

impl ConfigView {
    /// The configuration after a line of the text: a later entry for a key
    /// replaces an earlier one.
    pub open spec fn with_line(self, line: Seq<char>) -> ConfigView {
        match line_entry(line) {
            LineEntry::Nothing => self,
            LineEntry::DatabasePath(path) => ConfigView { database_path: Some(path), ..self },
            LineEntry::Device(key, enabled) => ConfigView {
                devices: self.devices.insert(key, enabled),
                ..self
            },
        }
    }

    /// The pair is on the whitelist and enabled.
    pub open spec fn allows(self, vendor_id: u16, device_id: u16) -> bool {
        let key = device_key(vendor_id, device_id);
        self.devices.contains_key(key) && self.devices[key]
    }
}

/// The configuration after the lines of a text, taken in their order. The
/// lines are the runs of characters between the line feeds of the text.
pub open spec fn with_text(config: ConfigView, text: Seq<char>) -> ConfigView
    decreases text.len(),
{
    let cut = before_line_feed(text);
    if cut >= text.len() {
        config.with_line(text)
    } else {
        with_text(config.with_line(text.take(cut as int)), text.skip(cut + 1int))
    }
}

/// The empty configuration: nothing on the whitelist, no database path.
pub open spec fn empty_config() -> ConfigView {
    ConfigView { devices: Map::empty(), database_path: None }
}

impl Default for Config {
    /// A configuration with an empty whitelist and no database path.
    fn default() -> (config: Config)
        ensures
            config@ == empty_config(),
    {
        Config { devices: StringHashMap::new(), database_path: None }
    }
}

/// A run at the head of `s` has the length `n` if the first `n` characters
/// belong to the class and the next one, if there is one, does not.
proof fn lemma_head_run(s: Seq<char>, class: CharClass, n: nat)
    requires
        n <= s.len(),
        forall|i: int| 0 <= i < n ==> class.holds(s[i]),
        n == s.len() || !class.holds(s[n as int]),
    ensures
        head_run(s, class) == n,
    decreases n,
{
    if n > 0 {
        let rest = s.drop_first();
        assert forall|i: int| 0 <= i < n - 1 implies class.holds(rest[i]) by {
            assert(rest[i] == s[i + 1]);
        }
        lemma_head_run(rest, class, (n - 1) as nat);
    }
}

/// A run at the end of `s` has the length `n` if the last `n` characters
/// belong to the class and the one before them, if there is one, does not.
proof fn lemma_tail_run(s: Seq<char>, class: CharClass, n: nat)
    requires
        n <= s.len(),
        forall|i: int| s.len() - n <= i < s.len() ==> class.holds(s[i]),
        n == s.len() || !class.holds(s[s.len() - n - 1]),
    ensures
        tail_run(s, class) == n,
    decreases n,
{
    if n > 0 {
        lemma_tail_run(s.drop_last(), class, (n - 1) as nat);
    }
}

/// Counts the characters of `s` from position `from` on that belong to
/// `class`, up to the first that does not or to position `to`.
fn count_run(s: &str, from: usize, to: usize, class: CharClass) -> (n: usize)
    requires
        from <= to <= s@.len(),
    ensures
        n == head_run(s@.subrange(from as int, to as int), class),
        from + n <= to,
{
    let mut at: usize = from;
    while at < to && class.has(s.get_char(at))
        invariant
            from <= at <= to <= s@.len(),
            forall|i: int| from <= i < at ==> class.holds(s@[i]),
        decreases to - at,
    {
        at = at + 1;
    }
    proof {
        lemma_head_run(s@.subrange(from as int, to as int), class, (at - from) as nat);
    }
    at - from
}

/// Trims the characters of `s` between `from` and `to`: the result is the
/// range of what is left.
fn trim_range(s: &str, from: usize, to: usize) -> (range: (usize, usize))
    requires
        from <= to <= s@.len(),
    ensures
        from <= range.0 <= range.1 <= to,
        s@.subrange(range.0 as int, range.1 as int) == trimmed(s@.subrange(from as int, to as int)),
{
    let start = from + count_run(s, from, to, CharClass::Space);
    let mut end: usize = to;
    while end > start && s.get_char(end - 1).is_whitespace()
        invariant
            start <= end <= to <= s@.len(),
            forall|i: int| end <= i < to ==> is_whitespace(s@[i]),
        decreases end - start,
    {
        end = end - 1;
    }
    proof {
        let part = s@.subrange(from as int, to as int);
        let rest = part.skip((start - from) as int);
        assert(rest =~= s@.subrange(start as int, to as int));
        lemma_tail_run(rest, CharClass::Space, (to - end) as nat);
        assert(s@.subrange(start as int, end as int) =~= rest.take(rest.len() - (to - end)));
    }
    (start, end)
}

/// Tells whether two texts are the same.
fn same_text(a: &str, b: &str) -> (same: bool)
    ensures
        same == (a@ == b@),
{
    let left = String::from_str(a);
    let right = String::from_str(b);
    left == right
}

impl Config {
    /// The pair is on the whitelist and enabled.
    pub open spec fn allows(&self, vendor_id: u16, device_id: u16) -> bool {
        self@.allows(vendor_id, device_id)
    }

    /// Tells whether a vendor and product pair is on the whitelist and
    /// enabled.
    pub fn is_device_valid(&self, vendor_id: u16, device_id: u16) -> (valid: bool)
        ensures
            valid == self.allows(vendor_id, device_id),
    {
        let mut key = String::new();
        push_text(&mut key, "vendor_0x");
        push_hex_padded(&mut key, vendor_id as u64, false, 4);
        push_text(&mut key, "_device_0x");
        push_hex_padded(&mut key, device_id as u64, false, 4);
        match self.devices.get(key.as_str()) {
            Some(enabled) => *enabled,
            None => false,
        }
    }

    /// Splits a line at its first white-space character into a key and the
    /// rest, both trimmed. A line without white space, or with nothing on one
    /// side of it, is no entry.
    pub fn parse_line(line: &str) -> (parts: Option<(&str, &str)>)
        ensures
            match parts {
                Some((key, rest)) => key_and_rest(line@) == Some((key@, rest@)),
                None => key_and_rest(line@) is None,
            },
    {
        let len = line.unicode_len();
        let cut = count_run(line, 0, len, CharClass::NotSpace);
        assert(line@.subrange(0, len as int) =~= line@);
        if cut >= len {
            return None;
        }
        let key = trim_range(line, 0, cut);
        let rest = trim_range(line, cut + 1, len);
        assert(line@.take(cut as int) =~= line@.subrange(0, cut as int));
        assert(line@.skip(cut + 1) =~= line@.subrange(cut + 1, len as int));
        if key.0 == key.1 || rest.0 == rest.1 {
            return None;
        }
        Some((line.substring_char(key.0, key.1), line.substring_char(rest.0, rest.1)))
    }

    /// Takes in one line of the configuration text.
    pub fn apply_line(&mut self, line: &str)
        ensures
            final(self)@ == old(self)@.with_line(line@),
    {
        let len = line.unicode_len();
        assert(line@.subrange(0, len as int) =~= line@);
        let (from, to) = trim_range(line, 0, len);
        if from == to {
            return ;
        }
        let text = line.substring_char(from, to);
        if text.get_char(0) == '#' {
            return ;
        }
        let (key, rest) = match Config::parse_line(text) {
            Some(parts) => parts,
            None => {
                return ;
            },
        };
        let rest_len = rest.unicode_len();
        let end = count_run(rest, 0, rest_len, CharClass::NotComment);
        assert(rest@.subrange(0, rest_len as int) =~= rest@);
        let (value_from, value_to) = trim_range(rest, 0, end);
        assert(rest@.take(end as int) =~= rest@.subrange(0, end as int));
        let value = rest.substring_char(value_from, value_to);
        if same_text(key, "database_path") {
            self.database_path = Some(String::from_str(value));
        } else {
            self.devices.insert(String::from_str(key), same_text(value, "1"));
        }
    }

    /// Reads a configuration text, line by line.
    pub fn parse(text: &str) -> (config: Config)
        ensures
            config@ == with_text(empty_config(), text@),
    {
        let mut config = Config::default();
        let len = text.unicode_len();
        let mut at: usize = 0;
        assert(text@.skip(0) =~= text@);
        loop
            invariant
                at <= len == text@.len(),
                with_text(empty_config(), text@) == with_text(config@, text@.skip(at as int)),
            decreases len - at,
        {
            let run = count_run(text, at, len, CharClass::NotLineFeed);
            let ghost rest = text@.skip(at as int);
            assert(rest =~= text@.subrange(at as int, len as int));
            let line = text.substring_char(at, at + run);
            assert(line@ =~= rest.take(run as int));
            config.apply_line(line);
            if run >= len - at {
                assert(line@ =~= rest);
                return config;
            }
            assert(rest.skip(run + 1) =~= text@.skip(at + run + 1));
            at = at + run + 1;
        }
    }
}

/// The run of white space at the end of a text stops before a character
/// that is none.
proof fn lemma_tail_run_stops(s: Seq<char>, at: int)
    requires
        0 <= at < s.len(),
        !is_whitespace(s[at]),
    ensures
        tail_run(s, CharClass::Space) < s.len() - at,
    decreases s.len(),
{
    if at < s.len() - 1 && is_whitespace(s.last()) {
        lemma_tail_run_stops(s.drop_last(), at);
    }
}

/// A line whose first character is `#` is a comment: it says nothing.
pub proof fn lemma_comment_says_nothing(line: Seq<char>)
    requires
        line.len() > 0,
        line[0] == '#',
    ensures
        line_entry(line) is Nothing,
{
    assert(head_run(line, CharClass::Space) == 0);
    assert(line.skip(0) =~= line);
    lemma_tail_run_stops(line, 0);
}

/// A line of white space alone says nothing, and so does the empty line.
pub proof fn lemma_blank_says_nothing(line: Seq<char>)
    requires
        forall|i: int| 0 <= i < line.len() ==> is_whitespace(line[i]),
    ensures
        line_entry(line) is Nothing,
{
    lemma_head_run(line, CharClass::Space, line.len());
}

/// The last entry for a device decides: after a line that is the entry of a
/// vendor and product pair, the pair is allowed exactly if the entry enables
/// it, whatever stood in the configuration before.
pub proof fn lemma_last_entry_decides(
    config: ConfigView,
    line: Seq<char>,
    vendor_id: u16,
    device_id: u16,
    enabled: bool,
)
    requires
        line_entry(line) == LineEntry::Device(device_key(vendor_id, device_id), enabled),
    ensures
        config.with_line(line).allows(vendor_id, device_id) == enabled,
{
}

} // verus!
