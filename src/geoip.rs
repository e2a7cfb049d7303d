//! The geofence: a set of IPv4 prefixes, loaded from cached or fetched text,
//! refreshed wholesale, and queried by address.
use vstd::prelude::*;

verus! {

/// Seconds after which the held list counts as stale.
pub const UPDATE_INTERVAL: u64 = 86400;

/// An IPv4 network in CIDR form: an address (as a big-endian `u32`) and the
/// number of leading bits that name the network.
#[derive(Clone, Copy, Debug, PartialEq, Eq, Structural)]
pub struct NetworkPrefix {
    pub addr: u32,
    pub prefix_len: u8,
}

/// The address as one big-endian `u32`, from its four dotted octets.
pub open spec fn octets_value(a: u8, b: u8, c: u8, d: u8) -> int {
    a as int * 16777216 + b as int * 65536 + c as int * 256 + d as int
}

/// The address `a.b.c.d` as one big-endian `u32`.
pub fn ipv4(a: u8, b: u8, c: u8, d: u8) -> (r: u32)
    ensures
        r as int == octets_value(a, b, c, d),
{
    (a as u32) * 16777216 + (b as u32) * 65536 + (c as u32) * 256 + (d as u32)
}

/// The bits that name the network: the top `len` bits set.
pub open spec fn netmask(len: u8) -> u32 {
    if len == 0 {
        0u32
    } else {
        0xffff_ffffu32 << ((32 - len) as u32)
    }
}

/// The bits that name a host within the network: the low `32 - len` bits set.
pub open spec fn hostmask(len: u8) -> u32 {
    if len >= 32 {
        0u32
    } else {
        0xffff_ffffu32 >> (len as u32)
    }
}

/// The lowest address of the prefix's range.
pub open spec fn network(p: NetworkPrefix) -> u32 {
    p.addr & netmask(p.prefix_len)
}

/// The highest address of the prefix's range.
pub open spec fn broadcast(p: NetworkPrefix) -> u32 {
    p.addr | hostmask(p.prefix_len)
}

/// `a` lies within the range that `p`'s address and mask delimit.
pub open spec fn prefix_contains(p: NetworkPrefix, a: u32) -> bool {
    network(p) <= a <= broadcast(p)
}

impl NetworkPrefix {
    pub open spec fn wf(&self) -> bool {
        self.prefix_len <= 32
    }

    pub fn contains(&self, a: u32) -> (r: bool)
        requires
            self.wf(),
        ensures
            r == prefix_contains(*self, a),
    {
        let net: u32 = if self.prefix_len == 0 {
            0u32
        } else {
            0xffff_ffffu32 << ((32 - self.prefix_len) as u32)
        };
        let host: u32 = if self.prefix_len >= 32 {
            0u32
        } else {
            0xffff_ffffu32 >> (self.prefix_len as u32)
        };
        let low = self.addr & net;
        let high = self.addr | host;
        low <= a && a <= high
    }
}

/// What `<ipnet::Ipv4Net as FromStr>::from_str` yields for a text: the address
/// as written and the prefix length, or `None` where the text is no IPv4 CIDR.
pub uninterp spec fn cidr_of(s: Seq<char>) -> Option<(u32, u8)>;

/// A character of the Unicode White_Space property, as `char::is_whitespace`
/// decides it.
pub open spec fn is_white_space(c: char) -> bool {
    ('\u{9}' <= c && c <= '\u{d}') || c == ' ' || c == '\u{85}' || c == '\u{a0}' || c
        == '\u{1680}' || ('\u{2000}' <= c && c <= '\u{200a}') || c == '\u{2028}' || c
        == '\u{2029}' || c == '\u{202f}' || c == '\u{205f}' || c == '\u{3000}'
}

/// The text without its leading white space.
pub open spec fn trim_start(s: Seq<char>) -> Seq<char>
    decreases s.len(),
{
    if s.len() > 0 && is_white_space(s[0]) {
        trim_start(s.drop_first())
    } else {
        s
    }
}

/// The text without its trailing white space.
pub open spec fn trim_end(s: Seq<char>) -> Seq<char>
    decreases s.len(),
{
    if s.len() > 0 && is_white_space(s.last()) {
        trim_end(s.drop_last())
    } else {
        s
    }
}

/// The text without its leading and trailing white space.
pub open spec fn trimmed(s: Seq<char>) -> Seq<char> {
    trim_end(trim_start(s))
}

/// Relies on `<ipnet::Ipv4Net as FromStr>::from_str`, which reads `a.b.c.d/n`
/// and builds the network with `Ipv4Net::new`, which refuses a length over 32.
#[verifier::external_body]
fn parse_ipv4_net(s: &str) -> (r: Option<NetworkPrefix>)
    ensures
        r is None <==> cidr_of(s@) is None,
        r matches Some(p) ==> cidr_of(s@) == Some((p.addr, p.prefix_len)) && p.prefix_len <= 32,
{
    match s.parse::<ipnet::Ipv4Net>() {
        Ok(net) => Some(NetworkPrefix { addr: u32::from(net.addr()), prefix_len: net.prefix_len() }),
        Err(_) => None,
    }
}

/// Relies on `str::trim`, which drops the leading and trailing characters of
/// the Unicode White_Space property.
#[verifier::external_body]
pub(crate) fn trim_whitespace(s: &str) -> (r: &str)
    ensures
        r@ == trimmed(s@),
{
    s.trim()
}

/// A line without the carriage return that ends a `\r\n` line ending.
pub open spec fn strip_cr(l: Seq<char>) -> Seq<char> {
    if l.len() > 0 && l.last() == '\r' {
        l.drop_last()
    } else {
        l
    }
}

/// The lines that a newline has closed so far, and the text after the last newline.
pub open spec fn split_state(s: Seq<char>) -> (Seq<Seq<char>>, Seq<char>)
    decreases s.len(),
{
    if s.len() == 0 {
        (Seq::empty(), Seq::empty())
    } else {
        let (done, cur) = split_state(s.drop_last());
        if s.last() == '\n' {
            (done.push(strip_cr(cur)), Seq::empty())
        } else {
            (done, cur.push(s.last()))
        }
    }
}

/// The lines of a text: split at `\n`, a `\r` before it dropped, and no empty
/// line after a final newline.
pub open spec fn lines_of(s: Seq<char>) -> Seq<Seq<char>> {
    let (done, cur) = split_state(s);
    if cur.len() == 0 {
        done
    } else {
        done.push(cur)
    }
}

/// The prefixes that the lines hold, in order; a line that does not read as a
/// CIDR once trimmed contributes nothing.
pub open spec fn parsed_prefixes(lines: Seq<Seq<char>>) -> Seq<NetworkPrefix>
    decreases lines.len(),
{
    if lines.len() == 0 {
        Seq::empty()
    } else {
        let rest = parsed_prefixes(lines.drop_last());
        match cidr_of(trimmed(lines.last())) {
            Some((a, l)) => rest.push(NetworkPrefix { addr: a, prefix_len: l }),
            None => rest,
        }
    }
}

/// The prefixes that a fetched or cached text holds.
pub open spec fn prefixes_in(text: Seq<char>) -> Seq<NetworkPrefix> {
    parsed_prefixes(lines_of(text))
}

/// The texts of the slices.
pub open spec fn str_views(v: Seq<&str>) -> Seq<Seq<char>> {
    v.map_values(|l: &str| l@)
}

/// Whether the character at `i` is `target`; constant time on an ASCII text.
fn char_at_is(s: &str, ascii: bool, i: usize, target: char) -> (r: bool)
    requires
        i < s@.len(),
        ascii == s.is_ascii(),
        target == '\n' || target == '\r',
    ensures
        r == (s@[i as int] == target),
{
    if ascii {
        let b = s.get_ascii(i);
        b == target as u8
    } else {
        s.get_char(i) == target
    }
}

/// The characters from `from` to `to`; constant time on an ASCII text.
fn slice_chars<'a>(s: &'a str, ascii: bool, from: usize, to: usize) -> (r: &'a str)
    requires
        from <= to <= s@.len(),
        ascii == s.is_ascii(),
    ensures
        r@ == s@.subrange(from as int, to as int),
{
    if ascii {
        s.substring_ascii(from, to)
    } else {
        s.substring_char(from, to)
    }
}

/// Splits a text into its lines.
pub fn split_lines(s: &str) -> (r: Vec<&str>)
    ensures
        str_views(r@) == lines_of(s@),
{
    let ascii = s.is_ascii();
    let n = s.unicode_len();
    let mut lines: Vec<&str> = Vec::new();
    let mut start: usize = 0;
    let mut i: usize = 0;
    while i < n
        invariant
            n == s@.len(),
            ascii == s.is_ascii(),
            start <= i <= n,
            split_state(s@.subrange(0, i as int)) == (str_views(lines@), s@.subrange(
                start as int,
                i as int,
            )),
        decreases n - i,
    {
        let ghost pre = s@.subrange(0, i as int);
        assert(s@.subrange(0, i + 1).drop_last() == pre);
        assert(s@.subrange(0, i + 1).last() == s@[i as int]);
        if char_at_is(s, ascii, i, '\n') {
            let mut end = i;
            if i > start && char_at_is(s, ascii, i - 1, '\r') {
                end = i - 1;
            }
            let line = slice_chars(s, ascii, start, end);
            proof {
                let cur = s@.subrange(start as int, i as int);
                assert(line@ == strip_cr(cur));
            }
            let ghost before = lines@;
            lines.push(line);
            assert(lines@.drop_last() == before);
            assert(str_views(lines@) =~= str_views(before).push(line@));
            start = i + 1;
        } else {
            assert(s@.subrange(start as int, i + 1) == s@.subrange(start as int, i as int).push(
                s@[i as int],
            ));
        }
        i = i + 1;
    }
    assert(s@.subrange(0, n as int) == s@);
    if start < n {
        let last = slice_chars(s, ascii, start, n);
        let ghost before = lines@;
        lines.push(last);
        assert(lines@.drop_last() == before);
        assert(str_views(lines@) =~= str_views(before).push(last@));
    }
    lines
}

/// Reads every line of a text as a CIDR, after trimming it, and keeps the
/// prefixes in the order of their lines; a line that does not parse is skipped.
pub fn parse_prefix_list(content: &str) -> (r: Vec<NetworkPrefix>)
    ensures
        r@ == prefixes_in(content@),
        forall|k: int| 0 <= k < r@.len() ==> (#[trigger] r@[k]).wf(),
{
    let lines = split_lines(content);
    let ghost ls = str_views(lines@);
    let mut list: Vec<NetworkPrefix> = Vec::new();
    let mut i: usize = 0;
    while i < lines.len()
        invariant
            ls == str_views(lines@),
            i <= lines@.len(),
            list@ == parsed_prefixes(ls.subrange(0, i as int)),
            forall|k: int| 0 <= k < list@.len() ==> (#[trigger] list@[k]).wf(),
        decreases lines.len() - i,
    {
        let line = trim_whitespace(lines[i]);
        assert(ls.subrange(0, i + 1).drop_last() == ls.subrange(0, i as int));
        assert(ls.subrange(0, i + 1).last() == lines@[i as int]@);
        match parse_ipv4_net(line) {
            Some(net) => {
                list.push(net);
            },
            None => {},
        }
        i = i + 1;
    }
    assert(ls.subrange(0, lines@.len() as int) == ls);
    list
}

/// What the geofence holds: its prefixes and the time, in seconds since the
/// Unix epoch, of the last successful refresh (`None`: never refreshed).
pub struct GeofenceView {
    pub prefixes: Seq<NetworkPrefix>,
    pub last_update: Option<u64>,
}

/// `a` lies in one of the prefixes.
pub open spec fn in_any(prefixes: Seq<NetworkPrefix>, a: u32) -> bool {
    exists|k: int| 0 <= k < prefixes.len() && prefix_contains(#[trigger] prefixes[k], a)
}

/// The list is stale when it was never fetched, is older than the interval, or
/// carries a time after `now`.
pub open spec fn stale(last_update: Option<u64>, now: u64) -> bool {
    match last_update {
        None => true,
        Some(t) => now < t || now - t > UPDATE_INTERVAL,
    }
}

/// The geofence after a refresh attempt: a fetched text replaces the whole list
/// and stamps `now`; a failed fetch (`None`) changes nothing.
pub open spec fn refreshed(g: GeofenceView, fetched: Option<Seq<char>>, now: u64) -> GeofenceView {
    match fetched {
        Some(text) => GeofenceView { prefixes: prefixes_in(text), last_update: Some(now) },
        None => g,
    }
}

/// The geofence of target IPv4 ranges.
pub struct GeoIpManager {
    cidrs: Vec<NetworkPrefix>,
    last_update: Option<u64>,
}

impl View for GeoIpManager {
    type V = GeofenceView;

    closed spec fn view(&self) -> GeofenceView {
        GeofenceView { prefixes: self.cidrs@, last_update: self.last_update }
    }
}

impl GeoIpManager {
    /// Every held prefix has a length of at most 32.
    pub open spec fn wf(&self) -> bool {
        forall|k: int| 0 <= k < self@.prefixes.len() ==> (#[trigger] self@.prefixes[k]).wf()
    }

    /// An empty geofence that has never been refreshed.
    pub fn new() -> (r: Self)
        ensures
            r.wf(),
            r@.prefixes == Seq::<NetworkPrefix>::empty(),
            r@.last_update == None::<u64>,
    {
        GeoIpManager { cidrs: Vec::new(), last_update: None }
    }

    /// Replaces the held prefixes with those of a text (the cached list); the
    /// refresh time stays.
    pub fn parse_and_update(&mut self, content: &str)
        requires
            old(self).wf(),
        ensures
            final(self).wf(),
            final(self)@.prefixes == prefixes_in(content@),
            final(self)@.last_update == old(self)@.last_update,
    {
        let list = parse_prefix_list(content);
        self.cidrs = list;
    }

    /// Loads the cached list where there is one, and tells whether a refresh
    /// is due at `now`.
    pub fn init(&mut self, cached: Option<&str>, now: u64) -> (r: bool)
        requires
            old(self).wf(),
        ensures
            final(self).wf(),
            final(self)@.prefixes == match cached {
                Some(c) => prefixes_in(c@),
                None => old(self)@.prefixes,
            },
            final(self)@.last_update == old(self)@.last_update,
            r == stale(old(self)@.last_update, now),
    {
        match cached {
            Some(c) => self.parse_and_update(c),
            None => {},
        }
        self.needs_update(now)
    }

    /// Whether a refresh is due at `now` (seconds since the Unix epoch).
    pub fn needs_update(&self, now: u64) -> (r: bool)
        ensures
            r == stale(self@.last_update, now),
    {
        match self.last_update {
            None => true,
            Some(t) => now < t || now - t > UPDATE_INTERVAL,
        }
    }

    /// Takes the outcome of a fetch: on success the whole list is replaced in
    /// one step and the time is stamped; on failure nothing changes.
    pub fn apply_fetch(&mut self, fetched: Option<&str>, now: u64)
        requires
            old(self).wf(),
        ensures
            final(self).wf(),
            final(self)@ == refreshed(
                old(self)@,
                match fetched {
                    Some(t) => Some(t@),
                    None => None,
                },
                now,
            ),
    {
        match fetched {
            Some(text) => {
                let list = parse_prefix_list(text);
                self.cidrs = list;
                self.last_update = Some(now);
            },
            None => {},
        }
    }

    /// Whether the address lies in one of the held prefixes.
    pub fn is_target(&self, ip: u32) -> (r: bool)
        requires
            self.wf(),
        ensures
            r == in_any(self@.prefixes, ip),
    {
        let mut i: usize = 0;
        while i < self.cidrs.len()
            invariant
                self.wf(),
                i <= self.cidrs@.len(),
                forall|k: int| 0 <= k < i ==> !prefix_contains(#[trigger] self.cidrs@[k], ip),
            decreases self.cidrs.len() - i,
        {
            assert(self.cidrs@[i as int] == self@.prefixes[i as int]);
            if self.cidrs[i].contains(ip) {
                return true;
            }
            i = i + 1;
        }
        false
    }
}

/// Parsing a run of lines is parsing each part and joining the results.
pub proof fn lemma_parsed_prefixes_append(a: Seq<Seq<char>>, b: Seq<Seq<char>>)
    ensures
        parsed_prefixes(a + b) == parsed_prefixes(a) + parsed_prefixes(b),
    decreases b.len(),
{
    if b.len() == 0 {
        assert(a + b =~= a);
        assert(parsed_prefixes(a) + parsed_prefixes(b) =~= parsed_prefixes(a));
    } else {
        lemma_parsed_prefixes_append(a, b.drop_last());
        assert((a + b).drop_last() =~= a + b.drop_last());
        assert((a + b).last() == b.last());
        match cidr_of(trimmed(b.last())) {
            Some((x, l)) => {
                let p = NetworkPrefix { addr: x, prefix_len: l };
                assert(parsed_prefixes(a) + parsed_prefixes(b.drop_last()).push(p) =~= (
                parsed_prefixes(a) + parsed_prefixes(b.drop_last())).push(p));
            },
            None => {},
        }
    }
}

/// A line that does not read as a CIDR is skipped: the lines before and after
/// it give the same prefixes as they would without it.
pub proof fn lemma_malformed_line_skipped(
    before: Seq<Seq<char>>,
    bad: Seq<char>,
    after: Seq<Seq<char>>,
)
    requires
        cidr_of(trimmed(bad)) is None,
    ensures
        parsed_prefixes(before.push(bad) + after) == parsed_prefixes(before) + parsed_prefixes(
            after,
        ),
        parsed_prefixes(before.push(bad) + after) == parsed_prefixes(before + after),
{
    lemma_parsed_prefixes_append(before.push(bad), after);
    lemma_parsed_prefixes_append(before, after);
    assert(before.push(bad).drop_last() =~= before);
}

/// A refresh whose fetch failed leaves the prefixes, the refresh time, and so
/// every classification, as they were.
pub proof fn lemma_failed_refresh_keeps_state(g: GeofenceView, now: u64)
    ensures
        refreshed(g, None, now) == g,
        forall|a: u32| #[trigger] in_any(refreshed(g, None, now).prefixes, a) == in_any(g.prefixes, a),
{
}

/// A successful refresh swaps the whole set at once: the geofence holds
/// exactly the fetched text's prefixes, never a part of them next to the old
/// ones, and classifies by them alone.
pub proof fn lemma_refresh_replaces_whole_set(g: GeofenceView, text: Seq<char>, now: u64)
    ensures
        refreshed(g, Some(text), now).prefixes == prefixes_in(text),
        refreshed(g, Some(text), now).last_update == Some(now),
        forall|a: u32| #[trigger] in_any(refreshed(g, Some(text), now).prefixes, a) == in_any(prefixes_in(text), a),
{
}

/// Against a single held prefix, an address is a target exactly when it lies
/// between the prefix's network and broadcast addresses.
pub proof fn lemma_single_prefix_membership(p: NetworkPrefix, a: u32)
    ensures
        in_any(seq![p], a) == (network(p) <= a && a <= broadcast(p)),
{
    if prefix_contains(p, a) {
        assert(prefix_contains(seq![p][0], a));
    }
}
} // verus!
