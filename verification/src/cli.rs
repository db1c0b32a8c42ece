//! Pure string logic of the wallet command-line tools: the abbreviated
//! address preview, the `--name params` argument grammar, and the vanity
//! grind filter.

use vstd::prelude::*;

use crate::wallet::Wallet;

verus! {

/// One parsed command argument: its name and the space-separated parameters
/// that followed it.
pub struct Argument {
    pub arg_name: String,
    pub parameters: Vec<String>,
}

/// The ghost shape of an [`Argument`].
pub ghost struct ArgumentModel {
    pub arg_name: Seq<char>,
    pub parameters: Seq<Seq<char>>,
}

/// The ghost shape of one exec argument.
pub open spec fn spec_argument_model(a: Argument) -> ArgumentModel {
    ArgumentModel {
        arg_name: a.arg_name@,
        parameters: a.parameters@.map_values(|p: String| p@),
    }
}

/// The whitespace characters the argument grammar trims.
pub open spec fn spec_is_space(c: char) -> bool {
    c == ' ' || c == '\t' || c == '\n' || c == '\r' || c == '\u{b}' || c == '\u{c}'
}

/// Index of the first occurrence of `c` in `s`, or `s.len()` if absent.
pub open spec fn spec_find(s: Seq<char>, c: char) -> int
    decreases s.len(),
{
    if s.len() == 0 {
        0
    } else if s[0] == c {
        0
    } else {
        1 + spec_find(s.drop_first(), c)
    }
}

/// `spec_find` points at the first occurrence: everything before it differs
/// from `c`, and it lands on `c` unless `c` is absent.
pub proof fn lemma_find_first(s: Seq<char>, c: char)
    ensures
        0 <= spec_find(s, c) <= s.len(),
        spec_find(s, c) < s.len() ==> s[spec_find(s, c)] == c,
        forall|k: int| 0 <= k < spec_find(s, c) ==> s[k] != c,
    decreases s.len(),
{
    if s.len() > 0 && s[0] != c {
        lemma_find_first(s.drop_first(), c);
        assert forall|k: int| 0 <= k < spec_find(s, c) implies s[k] != c by {
            if k > 0 {
                assert(s.drop_first()[k - 1] == s[k]);
            }
        }
    }
}

/// `s` with leading whitespace removed.
pub open spec fn spec_trim_start(s: Seq<char>) -> Seq<char>
    decreases s.len(),
{
    if s.len() > 0 && spec_is_space(s[0]) {
        spec_trim_start(s.drop_first())
    } else {
        s
    }
}

/// `s` with trailing whitespace removed.
pub open spec fn spec_trim_end(s: Seq<char>) -> Seq<char>
    decreases s.len(),
{
    if s.len() > 0 && spec_is_space(s.last()) {
        spec_trim_end(s.drop_last())
    } else {
        s
    }
}

/// `s` with whitespace removed from both ends.
pub open spec fn spec_trim(s: Seq<char>) -> Seq<char> {
    spec_trim_end(spec_trim_start(s))
}

/// The segments of `s` between occurrences of `c`. An empty string yields
/// one empty segment, the way `split` does.
pub open spec fn spec_split(s: Seq<char>, c: char) -> Seq<Seq<char>>
    decreases s.len(),
    via spec_split_decreases
{
    let j = spec_find(s, c);
    if j == s.len() {
        seq![s]
    } else {
        seq![s.take(j)] + spec_split(s.skip(j + 1), c)
    }
}

#[via_fn]
proof fn spec_split_decreases(s: Seq<char>, c: char) {
    lemma_find_first(s, c);
}

/// What one `--` flag parses to: the text up to the next `-` is taken, both
/// ends are trimmed, the first space splits the name from its parameters,
/// and the parameters split on single spaces. A flag with no space after its
/// name carries one empty parameter.
pub open spec fn spec_parse_one(rest: Seq<char>) -> ArgumentModel {
    let head = rest.take(spec_find(rest, '-'));
    let t = spec_trim(head);
    let sp = spec_find(t, ' ');
    if sp == t.len() {
        ArgumentModel { arg_name: t, parameters: seq![Seq::<char>::empty()] }
    } else {
        ArgumentModel { arg_name: t.take(sp), parameters: spec_split(t.skip(sp + 1), ' ') }
    }
}

/// Every position where a `--` starts contributes one parsed argument, in
/// order of position; scanning starts at index `i`.
pub open spec fn spec_parse_args(s: Seq<char>, i: int) -> Seq<ArgumentModel>
    decreases s.len() - i,
{
    if i < 0 || i + 1 >= s.len() {
        Seq::empty()
    } else if s[i] == '-' && s[i + 1] == '-' {
        seq![spec_parse_one(s.skip(i + 2))] + spec_parse_args(s, i + 1)
    } else {
        spec_parse_args(s, i + 1)
    }
}

fn is_space_char(c: char) -> (r: bool)
    ensures
        r == spec_is_space(c),
{
    c == ' ' || c == '\t' || c == '\n' || c == '\r' || c == '\u{b}' || c == '\u{c}'
}

/// Index of the first occurrence of `c` in `s`, or the length if absent.
fn find_char(s: &str, c: char) -> (j: usize)
    ensures
        j == spec_find(s@, c),
{
    let n = s.unicode_len();
    let mut j: usize = 0;
    while j < n
        invariant
            n == s@.len(),
            j <= n,
            forall|k: int| 0 <= k < j ==> s@[k] != c,
        decreases n - j,
    {
        if s.get_char(j) == c {
            proof {
                lemma_find_first(s@, c);
            }
            return j;
        }
        j = j + 1;
    }
    proof {
        lemma_find_first(s@, c);
    }
    n
}

/// Trim whitespace from both ends of `s`.
fn trim_str<'a>(s: &'a str) -> (t: &'a str)
    ensures
        t@ == spec_trim(s@),
{
    let n = s.unicode_len();
    let mut start: usize = 0;
    proof {
        assert(s@.skip(0) =~= s@);
    }
    while start < n && is_space_char(s.get_char(start))
        invariant
            n == s@.len(),
            start <= n,
            forall|k: int| 0 <= k < start ==> spec_is_space(s@[k]),
            spec_trim_start(s@) == spec_trim_start(s@.skip(start as int)),
        decreases n - start,
    {
        proof {
            assert(s@.skip(start as int).drop_first() =~= s@.skip(start as int + 1));
        }
        start = start + 1;
    }
    proof {
        assert(spec_trim_start(s@) == s@.skip(start as int));
    }
    let mut end: usize = n;
    proof {
        assert(s@.skip(start as int) =~= s@.subrange(start as int, n as int));
    }
    while end > start && is_space_char(s.get_char(end - 1))
        invariant
            n == s@.len(),
            start <= end <= n,
            spec_trim_start(s@) == s@.skip(start as int),
            spec_trim_end(s@.skip(start as int)) == spec_trim_end(
                s@.subrange(start as int, end as int),
            ),
        decreases end,
    {
        proof {
            assert(s@.subrange(start as int, end as int).last() == s@[end - 1]);
            assert(s@.subrange(start as int, end as int).drop_last() =~= s@.subrange(
                start as int,
                end as int - 1,
            ));
        }
        end = end - 1;
    }
    proof {
        let t = s@.subrange(start as int, end as int);
        if t.len() > 0 {
            assert(t.last() == s@[end - 1]);
        }
        assert(spec_trim_end(t) == t);
        assert(s@.skip(start as int) =~= s@.subrange(start as int, n as int));
    }
    s.substring_char(start, end)
}

/// Parse a command tail into its `--name params` arguments.
///
/// Each `--` in the input starts one argument: the text after it up to the
/// next `-` is trimmed, the first space separates the argument's name from
/// its parameters, and the parameters are split on single spaces.
pub fn parse_args(args: &str) -> (r: Vec<Argument>)
    ensures
        r@.map_values(|a: Argument| spec_argument_model(a)) == spec_parse_args(args@, 0),
{
    let mut r: Vec<Argument> = Vec::new();
    let n = args.unicode_len();
    if n < 2 {
        proof {
            assert(spec_parse_args(args@, 0) =~= Seq::<ArgumentModel>::empty());
            assert(r@.map_values(|a: Argument| spec_argument_model(a)) =~= Seq::<
                ArgumentModel,
            >::empty());
        }
        return r;
    }
    let mut i: usize = 0;
    while i < n - 1
        invariant
            n == args@.len(),
            n >= 2,
            i <= n,
            spec_parse_args(args@, 0) =~= r@.map_values(|a: Argument| spec_argument_model(a))
                + spec_parse_args(args@, i as int),
        decreases n - i,
    {
        let ghost old_r = r@;
        if args.get_char(i) == '-' && args.get_char(i + 1) == '-' {
            let rest = args.substring_char(i + 2, n);
            let arg = parse_one(rest);
            proof {
                assert(spec_parse_args(args@, i as int) == seq![
                    spec_parse_one(args@.skip(i as int + 2)),
                ] + spec_parse_args(args@, i as int + 1));
                assert(rest@ =~= args@.skip(i as int + 2));
            }
            r.push(arg);
            proof {
                assert(r@.map_values(|a: Argument| spec_argument_model(a)) =~= old_r.map_values(
                    |a: Argument| spec_argument_model(a),
                ).push(spec_parse_one(args@.skip(i as int + 2))));
                assert(spec_parse_args(args@, 0) =~= r@.map_values(
                    |a: Argument| spec_argument_model(a),
                ) + spec_parse_args(args@, i as int + 1));
            }
        } else {
            proof {
                assert(spec_parse_args(args@, i as int) == spec_parse_args(args@, i as int + 1));
            }
        }
        i = i + 1;
    }
    proof {
        assert(spec_parse_args(args@, i as int) =~= Seq::<ArgumentModel>::empty());
        assert(spec_parse_args(args@, 0) =~= r@.map_values(|a: Argument| spec_argument_model(a)));
    }
    r
}

/// Parse the text that follows one `--`.
fn parse_one(rest: &str) -> (arg: Argument)
    ensures
        spec_argument_model(arg) == spec_parse_one(rest@),
{
    let dash = find_char(rest, '-');
    proof {
        lemma_find_first(rest@, '-');
    }
    let head = rest.substring_char(0, dash);
    proof {
        assert(head@ =~= rest@.take(spec_find(rest@, '-')));
    }
    let t = trim_str(head);
    let sp = find_char(t, ' ');
    proof {
        lemma_find_first(t@, ' ');
    }
    if sp == t.unicode_len() {
        let mut parameters: Vec<String> = Vec::new();
        parameters.push(String::new());
        let arg = Argument { arg_name: t.to_owned(), parameters };
        proof {
            assert(spec_argument_model(arg).parameters =~= seq![Seq::<char>::empty()]);
        }
        arg
    } else {
        let name = t.substring_char(0, sp);
        let params_str = t.substring_char(sp + 1, t.unicode_len());
        proof {
            assert(params_str@ =~= t@.skip(sp as int + 1));
        }
        let parameters = split_spaces(params_str);
        Argument { arg_name: name.to_owned(), parameters }
    }
}

/// Split on single spaces; an empty input yields one empty segment.
fn split_spaces(s: &str) -> (parts: Vec<String>)
    ensures
        parts@.map_values(|p: String| p@) == spec_split(s@, ' '),
{
    let mut parts: Vec<String> = Vec::new();
    let mut pos: usize = 0;
    let n = s.unicode_len();
    proof {
        assert(s@.skip(0) =~= s@);
        assert(parts@.map_values(|p: String| p@) =~= Seq::<Seq<char>>::empty());
    }
    loop
        invariant
            n == s@.len(),
            pos <= n,
            spec_split(s@, ' ') =~= parts@.map_values(|p: String| p@) + spec_split(
                s@.skip(pos as int),
                ' ',
            ),
        decreases n - pos,
    {
        let remaining = s.substring_char(pos, n);
        proof {
            assert(remaining@ =~= s@.skip(pos as int));
        }
        let j = find_char(remaining, ' ');
        proof {
            lemma_find_first(remaining@, ' ');
        }
        let ghost old_parts = parts@;
        if j == remaining.unicode_len() {
            parts.push(remaining.to_owned());
            proof {
                assert(spec_split(s@.skip(pos as int), ' ') =~= seq![remaining@]);
                assert(parts@.map_values(|p: String| p@) =~= old_parts.map_values(
                    |p: String| p@,
                ).push(remaining@));
                assert(spec_split(s@, ' ') =~= parts@.map_values(|p: String| p@));
            }
            return parts;
        }
        let piece = remaining.substring_char(0, j);
        parts.push(piece.to_owned());
        proof {
            assert(piece@ =~= s@.skip(pos as int).take(j as int));
            assert(spec_split(s@.skip(pos as int), ' ') =~= seq![s@.skip(pos as int).take(
                j as int,
            )] + spec_split(s@.skip(pos as int).skip(j as int + 1), ' '));
            assert(parts@.map_values(|p: String| p@) =~= old_parts.map_values(|p: String| p@).push(
                piece@,
            ));
            assert(s@.skip(pos as int).skip(j as int + 1) =~= s@.skip(pos as int + j as int + 1));
            assert(spec_split(s@, ' ') =~= parts@.map_values(|p: String| p@) + spec_split(
                s@.skip(pos as int + j as int + 1),
                ' ',
            ));
        }
        pos = pos + j + 1;
    }
}

/// The abbreviated form of an address: its first four characters, an
/// ellipsis, and its last four characters.
pub fn get_pubkey_preview(pubkey: &String) -> (r: String)
    requires
        pubkey@.len() >= 4,
    ensures
        r@ == pubkey@.take(4) + "..."@ + pubkey@.skip(pubkey@.len() - 4),
{
    let n = pubkey.as_str().unicode_len();
    let head = pubkey.as_str().substring_char(0, 4);
    let tail = pubkey.as_str().substring_char(n - 4, n);
    let mut r = head.to_owned();
    r.append("...");
    r.append(tail);
    proof {
        assert(r@ =~= pubkey@.take(4) + "..."@ + pubkey@.skip(pubkey@.len() - 4));
    }
    r
}

/// Whether two strings hold the same characters.
pub fn str_eq(a: &str, b: &str) -> (r: bool)
    ensures
        r == (a@ == b@),
{
    let n = a.unicode_len();
    if n != b.unicode_len() {
        return false;
    }
    let mut i: usize = 0;
    while i < n
        invariant
            n == a@.len(),
            n == b@.len(),
            i <= n,
            forall|k: int| 0 <= k < i ==> a@[k] == b@[k],
        decreases n - i,
    {
        if a.get_char(i) != b.get_char(i) {
            return false;
        }
        i = i + 1;
    }
    proof {
        assert(a@ =~= b@);
    }
    true
}

/// Whether `s` begins with `p`.
pub fn str_starts_with(s: &str, p: &str) -> (r: bool)
    ensures
        r == (s@.len() >= p@.len() && s@.take(p@.len() as int) == p@),
{
    let pn = p.unicode_len();
    if s.unicode_len() < pn {
        return false;
    }
    let head = s.substring_char(0, pn);
    let r = str_eq(head, p);
    proof {
        if s@.take(pn as int) == p@ {
            assert(head@ =~= s@.take(pn as int));
        }
    }
    r
}

/// Whether `s` ends with `p`.
pub fn str_ends_with(s: &str, p: &str) -> (r: bool)
    ensures
        r == (s@.len() >= p@.len() && s@.skip(s@.len() - p@.len()) == p@),
{
    let pn = p.unicode_len();
    let n = s.unicode_len();
    if n < pn {
        return false;
    }
    let tail = s.substring_char(n - pn, n);
    let r = str_eq(tail, p);
    proof {
        if s@.skip(s@.len() - pn as int) == p@ {
            assert(tail@ =~= s@.skip(s@.len() - pn as int));
        }
    }
    r
}

/// What the vanity grinder accepts: an empty condition constrains nothing,
/// a non-empty one must match the address's start or end.
pub open spec fn spec_grind_match(address: Seq<char>, start: Seq<char>, end: Seq<char>) -> bool {
    &&& (start.len() > 0 ==> (address.len() >= start.len() && address.take(start.len() as int)
        == start))
    &&& (end.len() > 0 ==> (address.len() >= end.len() && address.skip(
        address.len() - end.len(),
    ) == end))
}

/// Whether a ground address satisfies the start and end conditions.
pub fn grind_matches(address: &str, start: &str, end: &str) -> (r: bool)
    ensures
        r == spec_grind_match(address@, start@, end@),
{
    if !start.is_empty() && !str_starts_with(address, start) {
        return false;
    }
    if !end.is_empty() && !str_ends_with(address, end) {
        return false;
    }
    true
}

/// Add a freshly generated wallet unless its tag collides with a stored
/// one: tags must stay unique, so a collision leaves the list unchanged.
pub fn add_wallet(wallets: &mut Vec<Wallet>, wallet: Wallet) -> (added: bool)
    ensures
        added == !(exists|k: int|
            0 <= k < old(wallets)@.len() && (#[trigger] old(wallets)@[k]).tag@ == wallet.tag@),
        added ==> final(wallets)@ == old(wallets)@.push(wallet),
        !added ==> final(wallets)@ == old(wallets)@,
{
    let mut i: usize = 0;
    let n = wallets.len();
    while i < n
        invariant
            n == wallets@.len(),
            i <= n,
            forall|k: int| 0 <= k < i ==> (#[trigger] wallets@[k]).tag@ != wallet.tag@,
        decreases n - i,
    {
        if str_eq(wallets[i].tag.as_str(), wallet.tag.as_str()) {
            return false;
        }
        i = i + 1;
    }
    wallets.push(wallet);
    true
}

/// Whether the query names this wallet, by tag or by address.
pub open spec fn spec_wallet_matches(w: Wallet, query: Seq<char>) -> bool {
    w.tag@ == query || w.pubkey@ == query
}

/// The first stored wallet whose tag or address is `query`, if any.
pub fn find_wallet(wallets: &Vec<Wallet>, query: &str) -> (r: Option<usize>)
    ensures
        r matches Some(i) ==> (i < wallets@.len() && spec_wallet_matches(wallets@[i as int], query@)
            && (forall|k: int|
            0 <= k < i ==> !spec_wallet_matches(#[trigger] wallets@[k], query@))),
        r is None ==> (forall|k: int|
            0 <= k < wallets@.len() ==> !spec_wallet_matches(#[trigger] wallets@[k], query@)),
{
    let mut i: usize = 0;
    let n = wallets.len();
    while i < n
        invariant
            n == wallets@.len(),
            i <= n,
            forall|k: int| 0 <= k < i ==> !spec_wallet_matches(#[trigger] wallets@[k], query@),
        decreases n - i,
    {
        if str_eq(wallets[i].tag.as_str(), query) || str_eq(wallets[i].pubkey.as_str(), query) {
            return Some(i);
        }
        i = i + 1;
    }
    None
}

/// The full 64-byte secret a wallet exports: its secret key followed by its
/// public key bytes.
pub fn wallet_full_secret(w: &Wallet) -> (r: Vec<u8>)
    ensures
        r@ == w.secret_key@ + w.pubkey_bytes@,
{
    let mut r: Vec<u8> = Vec::new();
    let mut i: usize = 0;
    while i < 32
        invariant
            i <= 32,
            w.secret_key@.len() == 32,
            r@ == w.secret_key@.take(i as int),
        decreases 32 - i,
    {
        r.push(w.secret_key[i]);
        i = i + 1;
    }
    let mut j: usize = 0;
    while j < 32
        invariant
            j <= 32,
            w.secret_key@.len() == 32,
            w.pubkey_bytes@.len() == 32,
            r@ == w.secret_key@.take(32) + w.pubkey_bytes@.take(j as int),
        decreases 32 - j,
    {
        r.push(w.pubkey_bytes[j]);
        j = j + 1;
    }
    proof {
        assert(w.secret_key@.take(32) =~= w.secret_key@);
        assert(w.pubkey_bytes@.take(32) =~= w.pubkey_bytes@);
        assert(r@ =~= w.secret_key@ + w.pubkey_bytes@);
    }
    r
}

} // verus!
