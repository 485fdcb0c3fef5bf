//! Text forms shared by the native stores: decimal ports, `host:port`
//! endpoints and separator-delimited lists.
use vstd::prelude::*;

verus! {

pub open spec fn is_digit(c: char) -> bool {
    '0' <= c && c <= '9'
}

pub open spec fn digit_of(c: char) -> int {
    c as int - '0' as int
}

pub open spec fn char_of(d: int) -> char {
    (d + '0' as int) as char
}

/// The shortest decimal spelling of `n`.
pub open spec fn decimal(n: nat) -> Seq<char>
    decreases n,
{
    if n < 10 {
        seq![char_of(n as int)]
    } else {
        decimal(n / 10).push(char_of((n % 10) as int))
    }
}

pub open spec fn all_digits(s: Seq<char>) -> bool {
    forall|i: int| 0 <= i < s.len() ==> is_digit(#[trigger] s[i])
}

/// The number that a string of decimal digits spells.
pub open spec fn value_of(s: Seq<char>) -> nat
    decreases s.len(),
{
    if s.len() == 0 {
        0
    } else {
        (value_of(s.drop_last()) * 10 + digit_of(s.last())) as nat
    }
}

/// A port in decimal: one or more digits whose value fits in 16 bits.
pub open spec fn port_of(s: Seq<char>) -> Option<u16> {
    if s.len() > 0 && all_digits(s) && value_of(s) <= u16::MAX {
        Some(value_of(s) as u16)
    } else {
        None
    }
}

/// Index of the last `c` in `s`, or -1 when `s` holds none.
pub open spec fn last_index_of(s: Seq<char>, c: char) -> int
    decreases s.len(),
{
    if s.len() == 0 {
        -1
    } else if s.last() == c {
        s.len() - 1
    } else {
        last_index_of(s.drop_last(), c)
    }
}

/// `host:port`, as a single endpoint string.
pub open spec fn endpoint(host: Seq<char>, port: u16) -> Seq<char> {
    host + seq![':'] + decimal(port as nat)
}

/// Splits an endpoint at its last colon into host and port.
pub open spec fn split_endpoint(s: Seq<char>) -> Option<(Seq<char>, u16)> {
    let i = last_index_of(s, ':');
    if i < 0 {
        None
    } else {
        match port_of(s.subrange(i + 1, s.len() as int)) {
            Some(p) => Some((s.subrange(0, i), p)),
            None => None,
        }
    }
}

/// The items written one after another with `sep` between each two.
pub open spec fn join(items: Seq<Seq<char>>, sep: char) -> Seq<char>
    decreases items.len(),
{
    if items.len() == 0 {
        Seq::empty()
    } else if items.len() == 1 {
        items[0]
    } else {
        join(items.drop_last(), sep) + seq![sep] + items.last()
    }
}

/// The pieces of `s` between its separators, taken from the end.
pub open spec fn split(s: Seq<char>, sep: char) -> Seq<Seq<char>>
    decreases s.len(),
{
    let i = last_index_of(s, sep);
    if i < 0 || i >= s.len() {
        seq![s]
    } else {
        split(s.subrange(0, i), sep).push(s.subrange(i + 1, s.len() as int))
    }
}

/// The entries of a list written with `sep`: none for the empty string,
/// else the pieces between separators.
pub open spec fn list_of(s: Seq<char>, sep: char) -> Seq<Seq<char>> {
    if s.len() == 0 {
        Seq::empty()
    } else {
        split(s, sep)
    }
}

/// The pieces of `s` between its separators: they join back to `s` and
/// none of them holds the separator.
pub open spec fn is_split_of(items: Seq<Seq<char>>, s: Seq<char>, sep: char) -> bool {
    &&& items.len() > 0
    &&& join(items, sep) == s
    &&& forall|i: int| 0 <= i < items.len() ==> !(#[trigger] items[i]).contains(sep)
}

/// `key: ` at the start of a line.
pub open spec fn field_prefix(key: Seq<char>) -> Seq<char> {
    key + seq![':', ' ']
}

pub open spec fn starts_with(s: Seq<char>, p: Seq<char>) -> bool {
    p.len() <= s.len() && s.subrange(0, p.len() as int) == p
}

/// The rest of the first line that begins with `p`.
pub open spec fn find_prefixed(lines: Seq<Seq<char>>, p: Seq<char>) -> Option<Seq<char>>
    decreases lines.len(),
{
    if lines.len() == 0 {
        None
    } else if starts_with(lines[0], p) {
        Some(lines[0].subrange(p.len() as int, lines[0].len() as int))
    } else {
        find_prefixed(lines.subrange(1, lines.len() as int), p)
    }
}

/// The value of field `key` in a text of `key: value` lines.
pub open spec fn field_of(text: Seq<char>, key: Seq<char>) -> Option<Seq<char>> {
    find_prefixed(split(text, '\n'), field_prefix(key))
}

pub proof fn lemma_char_digit(d: int)
    requires
        0 <= d < 10,
    ensures
        is_digit(char_of(d)),
        digit_of(char_of(d)) == d,
{
}

pub proof fn lemma_decimal(n: nat)
    ensures
        decimal(n).len() > 0,
        all_digits(decimal(n)),
        value_of(decimal(n)) == n,
        !decimal(n).contains(':'),
    decreases n,
{
    let d = decimal(n);
    if n >= 10 {
        lemma_decimal(n / 10);
        lemma_char_digit((n % 10) as int);
        assert(d.drop_last() =~= decimal(n / 10));
        assert(d.last() == char_of((n % 10) as int));
        assert(value_of(d) == value_of(decimal(n / 10)) * 10 + digit_of(d.last()));
        assert(n == (n / 10) * 10 + n % 10);
        assert forall|i: int| 0 <= i < d.len() implies is_digit(#[trigger] d[i]) by {
            if i < d.len() - 1 {
                assert(d[i] == decimal(n / 10)[i]);
            }
        }
    } else {
        lemma_char_digit(n as int);
        assert(d.drop_last() =~= Seq::<char>::empty());
        assert(value_of(Seq::<char>::empty()) == 0);
        assert(value_of(d) == value_of(d.drop_last()) * 10 + digit_of(d.last()));
    }
    assert(!d.contains(':')) by {
        if d.contains(':') {
            let k = choose|k: int| 0 <= k < d.len() && d[k] == ':';
            assert(is_digit(d[k]));
        }
    }
}

pub proof fn lemma_value_prefix(s: Seq<char>, i: int)
    requires
        all_digits(s),
        0 <= i <= s.len(),
    ensures
        value_of(s.subrange(0, i)) <= value_of(s),
    decreases s.len(),
{
    if i < s.len() {
        assert(s.drop_last().subrange(0, i) =~= s.subrange(0, i));
        lemma_value_prefix(s.drop_last(), i);
    } else {
        assert(s.subrange(0, i) =~= s);
    }
}

pub proof fn lemma_last_index_after(s: Seq<char>, c: char, t: Seq<char>)
    requires
        !t.contains(c),
    ensures
        last_index_of(s + seq![c] + t, c) == s.len(),
    decreases t.len(),
{
    let u = s + seq![c] + t;
    if t.len() == 0 {
        assert(u.last() == c);
    } else {
        assert(u.last() == t.last());
        assert(t.last() != c) by {
            assert(t[t.len() - 1] == t.last());
        }
        assert(u.drop_last() =~= s + seq![c] + t.drop_last());
        assert forall|k: int| 0 <= k < t.drop_last().len() implies t.drop_last()[k] != c by {
            assert(t.drop_last()[k] == t[k]);
        }
        lemma_last_index_after(s, c, t.drop_last());
    }
}

pub proof fn lemma_last_index_bounds(s: Seq<char>, c: char)
    ensures
        -1 <= last_index_of(s, c) < s.len(),
        last_index_of(s, c) >= 0 ==> s[last_index_of(s, c)] == c,
        forall|k: int| last_index_of(s, c) < k < s.len() ==> s[k] != c,
    decreases s.len(),
{
    if s.len() > 0 && s.last() != c {
        lemma_last_index_bounds(s.drop_last(), c);
        assert forall|k: int| last_index_of(s, c) < k < s.len() implies s[k] != c by {
            if k < s.len() - 1 {
                assert(s.drop_last()[k] == s[k]);
            }
        }
    }
}

pub proof fn lemma_last_index_none(s: Seq<char>, c: char)
    requires
        !s.contains(c),
    ensures
        last_index_of(s, c) == -1,
{
    lemma_last_index_bounds(s, c);
}

/// Any list of separator-free pieces that joins to `s` is `split(s)`.
pub proof fn lemma_split_unique(items: Seq<Seq<char>>, s: Seq<char>, sep: char)
    requires
        is_split_of(items, s, sep),
    ensures
        items == split(s, sep),
    decreases items.len(),
{
    if items.len() == 1 {
        assert(!items[0].contains(sep));
        lemma_last_index_none(s, sep);
        assert(items =~= seq![s]);
    } else {
        let front = items.drop_last();
        let x = join(front, sep);
        let l = items.last();
        assert(!l.contains(sep)) by {
            assert(items[items.len() - 1] == l);
        }
        lemma_last_index_after(x, sep, l);
        let i = x.len() as int;
        assert(s.subrange(0, i) =~= x);
        assert(s.subrange(i + 1, s.len() as int) =~= l);
        assert forall|k: int| 0 <= k < front.len() implies !(#[trigger] front[k]).contains(sep) by {
            assert(front[k] == items[k]);
        }
        lemma_split_unique(front, x, sep);
        assert(items =~= front.push(l));
    }
}

/// Splitting and joining again gives back the same string.
pub proof fn lemma_join_split(s: Seq<char>, sep: char)
    ensures
        join(split(s, sep), sep) == s,
        split(s, sep).len() > 0,
    decreases s.len(),
{
    let i = last_index_of(s, sep);
    lemma_last_index_bounds(s, sep);
    if i >= 0 {
        let front = split(s.subrange(0, i), sep);
        lemma_join_split(s.subrange(0, i), sep);
        let items = front.push(s.subrange(i + 1, s.len() as int));
        assert(items.drop_last() =~= front);
        assert(s =~= s.subrange(0, i) + seq![sep] + s.subrange(i + 1, s.len() as int));
    }
}

/// Reading a list and writing it again gives back the same string.
pub proof fn lemma_join_list(s: Seq<char>, sep: char)
    ensures
        join(list_of(s, sep), sep) == s,
{
    if s.len() > 0 {
        lemma_join_split(s, sep);
    } else {
        assert(join(Seq::<Seq<char>>::empty(), sep) =~= s);
    }
}

/// An endpoint splits back into the host and port it was made of.
pub proof fn lemma_endpoint_round_trip(host: Seq<char>, port: u16)
    ensures
        split_endpoint(endpoint(host, port)) == Some((host, port)),
{
    let s = endpoint(host, port);
    lemma_decimal(port as nat);
    lemma_last_index_after(host, ':', decimal(port as nat));
    assert(s.subrange(host.len() as int + 1, s.len() as int) =~= decimal(port as nat));
    assert(s.subrange(0, host.len() as int) =~= host);
}

/// Relies on `String::push`: appends one character.
#[verifier::external_body]
pub(crate) fn push_char(s: &mut String, c: char)
    ensures
        final(s)@ == old(s)@.push(c),
{
    s.push(c)
}

/// Appends the decimal spelling of `n`.
pub fn push_decimal(s: &mut String, n: u16)
    ensures
        final(s)@ == old(s)@ + decimal(n as nat),
    decreases n,
{
    if n >= 10 {
        push_decimal(s, n / 10);
    }
    let d: u16 = n % 10;
    push_char(s, ((d as u8) + 48) as char);
    assert(final(s)@ =~= old(s)@ + decimal(n as nat));
}

/// Reads a decimal port.
pub fn parse_port(s: &str) -> (r: Option<u16>)
    ensures
        r == port_of(s@),
{
    let n = s.unicode_len();
    if n == 0 {
        return None;
    }
    let mut acc: u32 = 0;
    let mut i: usize = 0;
    while i < n
        invariant
            n == s@.len(),
            0 <= i <= n,
            all_digits(s@.subrange(0, i as int)),
            acc == value_of(s@.subrange(0, i as int)),
            acc <= u16::MAX,
        decreases n - i,
    {
        let c = s.get_char(i);
        let ghost prefix = s@.subrange(0, i as int + 1);
        assert(prefix.drop_last() =~= s@.subrange(0, i as int));
        if !('0' <= c && c <= '9') {
            assert(!all_digits(s@)) by {
                assert(!is_digit(s@[i as int]));
            }
            return None;
        }
        acc = acc * 10 + ((c as u32) - 48);
        i = i + 1;
        if acc > 65535 {
            assert(!all_digits(s@) || value_of(s@) > u16::MAX) by {
                if all_digits(s@) {
                    lemma_value_prefix(s@, i as int);
                }
            }
            return None;
        }
    }
    assert(s@.subrange(0, n as int) =~= s@);
    Some(acc as u16)
}

/// Formats `host:port`.
pub fn format_endpoint(host: &str, port: u16) -> (r: String)
    ensures
        r@ == endpoint(host@, port),
{
    let mut r = String::from_str(host);
    push_char(&mut r, ':');
    push_decimal(&mut r, port);
    r
}

/// Splits `host:port` at its last colon.
pub fn parse_endpoint(s: &str) -> (r: Option<(String, u16)>)
    ensures
        match split_endpoint(s@) {
            Some((h, p)) => r is Some && r->Some_0.0@ == h && r->Some_0.1 == p,
            None => r is None,
        },
{
    let n = s.unicode_len();
    proof {
        lemma_last_index_bounds(s@, ':');
    }
    let mut i: usize = n;
    while i > 0
        invariant
            n == s@.len(),
            i <= n,
            forall|k: int| i <= k < n ==> s@[k] != ':',
            last_index_of(s@, ':') < i,
        decreases i,
    {
        let c = s.get_char(i - 1);
        proof {
            lemma_last_index_bounds(s@, ':');
        }
        assert(s@[i - 1] == c);
        if c == ':' {
            assert(last_index_of(s@, ':') == i - 1) by {
                if last_index_of(s@, ':') < i - 1 {
                    assert(s@[i - 1] != ':');
                }
            }
            let port = parse_port(s.substring_char(i, n));
            return match port {
                Some(p) => Some((String::from_str(s.substring_char(0, i - 1)), p)),
                None => None,
            };
        }
        assert(last_index_of(s@, ':') != i - 1);
        i = i - 1;
    }
    None
}

/// Whether two strings hold the same characters.
pub fn same_text(a: &str, b: &str) -> (r: bool)
    ensures
        r == (a@ == b@),
{
    String::from_str(a) == String::from_str(b)
}

/// Whether `s` begins with `p`.
pub fn starts_with_str(s: &str, p: &str) -> (r: bool)
    ensures
        r == starts_with(s@, p@),
{
    let n = s.unicode_len();
    let m = p.unicode_len();
    if m > n {
        return false;
    }
    let mut i: usize = 0;
    while i < m
        invariant
            n == s@.len(),
            m == p@.len(),
            m <= n,
            i <= m,
            forall|k: int| 0 <= k < i ==> s@[k] == p@[k],
        decreases m - i,
    {
        if s.get_char(i) != p.get_char(i) {
            assert(s@.subrange(0, m as int)[i as int] != p@[i as int]);
            return false;
        }
        i = i + 1;
    }
    assert(s@.subrange(0, m as int) =~= p@);
    true
}

/// The rest of the first line of `text` that begins with `p`.
pub fn after_prefix(text: &str, p: &str) -> (r: Option<String>)
    ensures
        match find_prefixed(split(text@, '\n'), p@) {
            Some(v) => r is Some && r->Some_0@ == v,
            None => r is None,
        },
{
    let lines = split_items(text, '\n');
    let ghost all = lines.deep_view();
    assert(all.subrange(0, all.len() as int) =~= all);
    let mut i: usize = 0;
    while i < lines.len()
        invariant
            all == lines.deep_view(),
            all == split(text@, '\n'),
            i <= lines.len(),
            find_prefixed(all, p@) == find_prefixed(all.subrange(i as int, all.len() as int), p@),
        decreases lines.len() - i,
    {
        let ghost rest = all.subrange(i as int, all.len() as int);
        assert(rest[0] == lines[i as int]@);
        if starts_with_str(lines[i].as_str(), p) {
            let line = lines[i].as_str();
            return Some(String::from_str(line.substring_char(p.unicode_len(), line.unicode_len())));
        }
        assert(rest.subrange(1, rest.len() as int) =~= all.subrange(i as int + 1, all.len() as int));
        i = i + 1;
    }
    None
}

/// The value of field `key` in a text of `key: value` lines.
pub fn field(text: &str, key: &str) -> (r: Option<String>)
    ensures
        match field_of(text@, key@) {
            Some(v) => r is Some && r->Some_0@ == v,
            None => r is None,
        },
{
    let mut prefix = String::from_str(key);
    push_char(&mut prefix, ':');
    push_char(&mut prefix, ' ');
    assert(prefix@ =~= field_prefix(key@));
    after_prefix(text, prefix.as_str())
}

/// Writes the items with `sep` between each two.
pub fn join_items(items: &Vec<String>, sep: char) -> (r: String)
    ensures
        r@ == join(items.deep_view(), sep),
{
    let mut r = String::new();
    let mut i: usize = 0;
    while i < items.len()
        invariant
            0 <= i <= items.len(),
            r@ == join(items.deep_view().subrange(0, i as int), sep),
        decreases items.len() - i,
    {
        let ghost before = items.deep_view().subrange(0, i as int);
        let ghost after = items.deep_view().subrange(0, i as int + 1);
        assert(after.drop_last() =~= before);
        if i > 0 {
            push_char(&mut r, sep);
        }
        r.append(items[i].as_str());
        i = i + 1;
        assert(r@ =~= join(after, sep));
    }
    assert(items.deep_view().subrange(0, items.len() as int) =~= items.deep_view());
    r
}

/// The entries of a list written with `sep`.
pub fn list_items_of(s: &str, sep: char) -> (r: Vec<String>)
    ensures
        r.deep_view() == list_of(s@, sep),
{
    if s.unicode_len() == 0 {
        let r: Vec<String> = Vec::new();
        assert(r.deep_view() =~= Seq::<Seq<char>>::empty());
        r
    } else {
        split_items(s, sep)
    }
}

/// Cuts `s` at each `sep`.
pub fn split_items(s: &str, sep: char) -> (r: Vec<String>)
    ensures
        r.deep_view() == split(s@, sep),
{
    let n = s.unicode_len();
    let mut pieces: Vec<String> = Vec::new();
    let mut start: usize = 0;
    let mut i: usize = 0;
    while i < n
        invariant
            n == s@.len(),
            start <= i <= n,
            join(pieces.deep_view().push(s@.subrange(start as int, i as int)), sep)
                == s@.subrange(0, i as int),
            forall|k: int| 0 <= k < pieces.len() ==> !(#[trigger] pieces.deep_view()[k]).contains(sep),
            !s@.subrange(start as int, i as int).contains(sep),
        decreases n - i,
    {
        let ghost old_pieces = pieces.deep_view();
        let c = s.get_char(i);
        if c == sep {
            let ghost (i0, start0) = (i as int, start as int);
            let piece = String::from_str(s.substring_char(start, i));
            pieces.push(piece);
            start = i + 1;
            i = i + 1;
            let ghost p = pieces.deep_view();
            assert(p =~= old_pieces.push(s@.subrange(start0, i0)));
            assert(s@.subrange(start as int, i as int) =~= Seq::<char>::empty());
            assert(s@.subrange(0, i as int) =~= s@.subrange(0, i0) + seq![sep]);
            let ghost q = p.push(Seq::<char>::empty());
            assert(q.drop_last() =~= p);
            assert(join(q, sep) =~= join(p, sep) + seq![sep]);
            assert forall|k: int| 0 <= k < p.len() implies !(#[trigger] p[k]).contains(sep) by {
                if k < old_pieces.len() {
                    assert(p[k] == old_pieces[k]);
                }
            }
        } else {
            i = i + 1;
            let ghost cur = s@.subrange(start as int, i as int);
            let ghost prev = s@.subrange(start as int, i as int - 1);
            assert(cur =~= prev.push(c));
            assert(s@.subrange(0, i as int) =~= s@.subrange(0, i as int - 1).push(c));
            assert(!cur.contains(sep)) by {
                if cur.contains(sep) {
                    let k = choose|k: int| 0 <= k < cur.len() && cur[k] == sep;
                    if k < prev.len() {
                        assert(prev[k] == cur[k]);
                    }
                }
            }
            let ghost pv = pieces.deep_view();
            assert(pv.push(cur).drop_last() =~= pv);
            assert(pv.push(prev).drop_last() =~= pv);
        }
    }
    let ghost before = pieces.deep_view();
    let last = String::from_str(s.substring_char(start, n));
    pieces.push(last);
    assert(s@.subrange(0, n as int) =~= s@);
    assert(pieces.deep_view() =~= before.push(s@.subrange(start as int, n as int)));
    assert forall|k: int| 0 <= k < pieces.len() implies !(#[trigger] pieces.deep_view()[k]).contains(
        sep,
    ) by {
        if k < before.len() {
            assert(pieces.deep_view()[k] == before[k]);
        }
    }
    proof {
        lemma_split_unique(pieces.deep_view(), s@, sep);
    }
    pieces
}

} // verus!
