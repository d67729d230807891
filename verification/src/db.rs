use vstd::prelude::*;
use crate::fetcher::{fee_or_zero, fee_text_value, lemma_response_pools, response_pools, text_or};
use crate::json::JsonValue;
use crate::models::Protocol;
use crate::json::{push_quoted, quoted, str_eq};
use crate::models::{opt_text, UnifiedPool, UnifiedPoolView};
use crate::text::{chars_of, parse_u32, push_char};

verus! {

/// A row of the `raw_pools` table as it is read back.
///
/// `tvl_usd` is the decimal text of the stored value locked in USD;
/// `extra_data` is `None` where the column is null.
pub struct RawPoolRow {
    pub id: String,
    pub protocol: String,
    pub token0_id: String,
    pub token0_symbol: String,
    pub token1_id: String,
    pub token1_symbol: String,
    pub tvl_usd: String,
    pub raw_json: String,
    pub extra_data: Option<String>,
    pub decimals0: Option<u8>,
    pub decimals1: Option<u8>,
}

/// The model of a [`RawPoolRow`].
pub struct RawPoolRowView {
    pub id: Seq<char>,
    pub protocol: Seq<char>,
    pub token0_id: Seq<char>,
    pub token0_symbol: Seq<char>,
    pub token1_id: Seq<char>,
    pub token1_symbol: Seq<char>,
    pub tvl_usd: Seq<char>,
    pub raw_json: Seq<char>,
    pub extra_data: Option<Seq<char>>,
    pub decimals0: Option<u8>,
    pub decimals1: Option<u8>,
}

impl View for RawPoolRow {
    type V = RawPoolRowView;

    open spec fn view(&self) -> RawPoolRowView {
        RawPoolRowView {
            id: self.id@,
            protocol: self.protocol@,
            token0_id: self.token0_id@,
            token0_symbol: self.token0_symbol@,
            token1_id: self.token1_id@,
            token1_symbol: self.token1_symbol@,
            tvl_usd: self.tvl_usd@,
            raw_json: self.raw_json@,
            extra_data: opt_text(self.extra_data),
            decimals0: self.decimals0,
            decimals1: self.decimals1,
        }
    }
}

/// What a row's `raw_json` gives for rebuilding the pool: the `feeTier`
/// string, if it is one, and the JSON texts of the members that the
/// fallback `extra_data` copies (`null` for a missing member).
pub struct RawJsonFields {
    pub fee_tier: Option<String>,
    pub hooks: String,
    pub liquidity: String,
    pub total_value_locked_usd: String,
    pub reserve_usd: String,
    pub tick_spacing: String,
}

/// The model of [`RawJsonFields`].
pub struct RawJsonFieldsView {
    pub fee_tier: Option<Seq<char>>,
    pub hooks: Seq<char>,
    pub liquidity: Seq<char>,
    pub total_value_locked_usd: Seq<char>,
    pub reserve_usd: Seq<char>,
    pub tick_spacing: Seq<char>,
}

impl View for RawJsonFields {
    type V = RawJsonFieldsView;

    open spec fn view(&self) -> RawJsonFieldsView {
        RawJsonFieldsView {
            fee_tier: opt_text(self.fee_tier),
            hooks: self.hooks@,
            liquidity: self.liquidity@,
            total_value_locked_usd: self.total_value_locked_usd@,
            reserve_usd: self.reserve_usd@,
            tick_spacing: self.tick_spacing@,
        }
    }
}

/// Whether a stored protocol label is one of the V4 protocols, whose pool ids
/// are longer than an address.
pub open spec fn is_v4_label(protocol: Seq<char>) -> bool {
    protocol == "V4"@ || protocol == "Pancake-V4"@
}

/// The text with every leading `0x` removed.
pub open spec fn strip_hex_prefix(s: Seq<char>) -> Seq<char>
    decreases s.len(),
{
    if s.len() >= 2 && s[0] == '0' && s[1] == 'x' {
        strip_hex_prefix(s.skip(2))
    } else {
        s
    }
}

/// The number of bytes of a character in UTF-8.
pub open spec fn utf8_width(c: char) -> nat {
    if (c as u32) < 0x80 {
        1
    } else if (c as u32) < 0x800 {
        2
    } else if (c as u32) < 0x10000 {
        3
    } else {
        4
    }
}

/// The number of bytes of a text in UTF-8.
pub open spec fn utf8_len(s: Seq<char>) -> nat
    decreases s.len(),
{
    if s.len() == 0 {
        0
    } else {
        utf8_len(s.drop_last()) + utf8_width(s.last())
    }
}

/// The end of `s` that takes `n` bytes in UTF-8, as far as whole characters
/// reach.
pub open spec fn byte_suffix(s: Seq<char>, n: nat) -> Seq<char>
    decreases s.len(),
{
    if n == 0 || s.len() == 0 || utf8_width(s.last()) > n {
        Seq::empty()
    } else {
        byte_suffix(s.drop_last(), (n - utf8_width(s.last())) as nat).push(s.last())
    }
}

/// Whether the last `n` bytes of `s` start on a character boundary.
pub open spec fn suffix_on_boundary(s: Seq<char>, n: nat) -> bool {
    utf8_len(byte_suffix(s, n)) == n
}

/// `n` zero characters.
pub open spec fn zeros(n: nat) -> Seq<char> {
    Seq::new(n, |i: int| '0')
}

/// The address of a pool before lowercasing: for V4 protocols, `0x` and the
/// last 40 bytes of the id without its `0x` prefixes, or that id left-padded
/// with zeros to 40 characters where it is shorter than 40 bytes; the id
/// itself for other protocols.
pub open spec fn address_text(protocol: Seq<char>, id: Seq<char>) -> Seq<char> {
    if is_v4_label(protocol) {
        let hex = strip_hex_prefix(id);
        if utf8_len(hex) >= 40 {
            "0x"@ + byte_suffix(hex, 40)
        } else {
            "0x"@ + zeros((40 - hex.len()) as nat) + hex
        }
    } else {
        id
    }
}

/// Whether `address_text` can be taken: the address is cut out of the id's
/// UTF-8 bytes with std's byte slicing, which panics unless the cut falls on a
/// character boundary, 40 bytes before the end.
pub open spec fn address_computable(protocol: Seq<char>, id: Seq<char>) -> bool {
    is_v4_label(protocol) && utf8_len(strip_hex_prefix(id)) >= 40 ==> suffix_on_boundary(
        strip_hex_prefix(id),
        40,
    )
}

/// The fee of a stored pool: 3000 for V2, else its `feeTier` read as an
/// `u32` (missing text reads as "0", unreadable text gives 0).
pub open spec fn stored_fee(protocol: Seq<char>, fee_tier: Option<Seq<char>>) -> u32 {
    if protocol == "V2"@ {
        3000
    } else {
        fee_or_zero(text_or(fee_tier, "0"@))
    }
}

/// The `extra_data` rebuilt from `raw_json` for a row that stored none: a
/// JSON object whose keys are in the order serde_json's map keeps them.
pub open spec fn fallback_extra(protocol: Seq<char>, id: Seq<char>, f: RawJsonFieldsView) -> Seq<char> {
    if is_v4_label(protocol) {
        "{\"hooks\":"@ + f.hooks + ",\"liquidity\":"@ + f.liquidity + ",\"pool_id\":"@ + quoted(id)
            + ",\"tvl_usd\":"@ + f.total_value_locked_usd + "}"@
    } else if protocol == "V2"@ {
        "{\"reserveUSD\":"@ + f.reserve_usd + "}"@
    } else {
        "{\"amm_type\":\"vAMM\",\"liquidity\":"@ + f.liquidity + ",\"tick_spacing\":"@
            + f.tick_spacing + ",\"tvl_usd\":"@ + f.total_value_locked_usd + "}"@
    }
}

/// The pool rebuilt from a row, its (lowercased) address and what its
/// `raw_json` gives.
pub open spec fn row_pool(row: RawPoolRowView, address: Seq<char>, f: RawJsonFieldsView) -> UnifiedPoolView {
    UnifiedPoolView {
        id: address,
        protocol: row.protocol,
        token0_id: row.token0_id,
        token0_symbol: row.token0_symbol,
        token1_id: row.token1_id,
        token1_symbol: row.token1_symbol,
        fee: stored_fee(row.protocol, f.fee_tier),
        decimals0: row.decimals0,
        decimals1: row.decimals1,
        raw_json: row.raw_json,
        extra_data: match row.extra_data {
            Some(e) => e,
            None => fallback_extra(row.protocol, row.id, f),
        },
        tvl_usd: row.tvl_usd,
    }
}

proof fn lemma_skip_last<A>(s: Seq<A>, j: int)
    requires
        0 <= j < s.len(),
    ensures
        s.skip(j).drop_last() == s.drop_last().skip(j),
        s.skip(j).last() == s.last(),
{
    assert(s.skip(j).drop_last() =~= s.drop_last().skip(j));
}

proof fn lemma_utf8_len_skip_step(s: Seq<char>, j: int)
    requires
        0 < j <= s.len(),
    ensures
        utf8_len(s.skip(j - 1)) == utf8_len(s.skip(j)) + utf8_width(s[j - 1]),
    decreases s.len(),
{
    if j == s.len() {
        assert(s.skip(j - 1).drop_last() =~= s.skip(j));
    } else {
        lemma_skip_last(s, j - 1);
        lemma_skip_last(s, j);
        lemma_utf8_len_skip_step(s.drop_last(), j);
    }
}

proof fn lemma_utf8_len_bounds(s: Seq<char>, i: int, j: int)
    requires
        0 <= i <= j <= s.len(),
    ensures
        utf8_len(s.skip(j)) + (j - i) <= utf8_len(s.skip(i)),
    decreases j - i,
{
    if i < j {
        lemma_utf8_len_skip_step(s, j);
        lemma_utf8_len_bounds(s, i, j - 1);
    }
}

proof fn lemma_byte_suffix(s: Seq<char>, j: int, r: nat)
    requires
        0 <= j <= s.len(),
        j == 0 || utf8_width(s[j - 1]) > r,
    ensures
        byte_suffix(s, utf8_len(s.skip(j)) + r) == s.skip(j),
    decreases s.len(),
{
    if j == s.len() {
        assert(s.skip(j) =~= Seq::<char>::empty());
    } else {
        lemma_skip_last(s, j);
        lemma_byte_suffix(s.drop_last(), j, r);
        assert(s.skip(j) =~= s.drop_last().skip(j).push(s.last()));
    }
}

fn width_of(c: char) -> (r: usize)
    ensures
        r as nat == utf8_width(c),
{
    let code: u32 = c as u32;
    if code < 0x80 {
        1
    } else if code < 0x800 {
        2
    } else if code < 0x10000 {
        3
    } else {
        4
    }
}

fn hex_start(cs: &Vec<char>) -> (start: usize)
    ensures
        start <= cs@.len(),
        strip_hex_prefix(cs@) == cs@.skip(start as int),
{
    let mut start: usize = 0;
    assert(cs@.skip(0) =~= cs@);
    while cs.len() >= 2 && start <= cs.len() - 2 && cs[start] == '0' && cs[start + 1] == 'x'
        invariant
            start <= cs@.len(),
            strip_hex_prefix(cs@) == strip_hex_prefix(cs@.skip(start as int)),
        decreases cs.len() - start,
    {
        assert(cs@.skip(start as int).skip(2) =~= cs@.skip(start + 2));
        start = start + 2;
    }
    start
}

/// Walks back from the end of `cs` over whole characters while fewer than 40
/// bytes are covered: gives the first index covered, the bytes covered, and
/// whether the next character back would pass 40 bytes.
fn cover_tail(cs: &Vec<char>, start: usize) -> (r: (usize, usize, bool))
    requires
        start <= cs@.len(),
    ensures
        start <= r.0 <= cs@.len(),
        r.1 as nat == utf8_len(cs@.skip(start as int).skip(r.0 - start)),
        r.1 <= 40,
        r.2 ==> r.0 > start && r.1 < 40 && r.1 + utf8_width(cs@[r.0 - 1]) > 40,
        !r.2 ==> r.1 == 40 || r.0 == start,
{
    let ghost hex = cs@.skip(start as int);
    let mut k: usize = cs.len();
    let mut acc: usize = 0;
    let mut overshoot = false;
    assert(hex.skip(hex.len() as int) =~= Seq::<char>::empty());
    while k > start && acc < 40 && !overshoot
        invariant
            start <= k <= cs@.len(),
            hex == cs@.skip(start as int),
            acc as nat == utf8_len(hex.skip(k - start)),
            acc <= 40,
            overshoot ==> k > start && acc < 40 && acc + utf8_width(cs@[k - 1]) > 40,
        decreases k - start + (if overshoot { 0int } else { 1int }),
    {
        let w = width_of(cs[k - 1]);
        proof {
            assert(hex[k - start - 1] == cs@[k - 1]);
            lemma_utf8_len_skip_step(hex, k - start);
        }
        if acc + w > 40 {
            overshoot = true;
        } else {
            acc = acc + w;
            k = k - 1;
        }
    }
    (k, acc, overshoot)
}

fn push_range(out: &mut String, cs: &Vec<char>, from: usize)
    requires
        from <= cs@.len(),
    ensures
        final(out)@ == old(out)@ + cs@.skip(from as int),
{
    let mut i: usize = from;
    while i < cs.len()
        invariant
            from <= i <= cs@.len(),
            out@ == old(out)@ + cs@.subrange(from as int, i as int),
        decreases cs.len() - i,
    {
        push_char(out, cs[i]);
        assert(cs@.subrange(from as int, i + 1) =~= cs@.subrange(from as int, i as int).push(cs@[i as int]));
        i = i + 1;
    }
    assert(cs@.subrange(from as int, cs@.len() as int) =~= cs@.skip(from as int));
}

fn push_zeros(out: &mut String, n: usize)
    ensures
        final(out)@ == old(out)@ + zeros(n as nat),
{
    let mut z: usize = 0;
    while z < n
        invariant
            z <= n,
            out@ == old(out)@ + zeros(z as nat),
        decreases n - z,
    {
        push_char(out, '0');
        assert(zeros((z + 1) as nat) =~= zeros(z as nat).push('0'));
        z = z + 1;
    }
}

/// The address of a pool, before lowercasing (see [`address_text`]).
pub fn pool_address_text(protocol: &str, id: &str) -> (r: String)
    requires
        address_computable(protocol@, id@),
    ensures
        r@ == address_text(protocol@, id@),
{
    if !(str_eq(protocol, "V4") || str_eq(protocol, "Pancake-V4")) {
        return String::from_str(id);
    }
    let cs = chars_of(id);
    let start = hex_start(&cs);
    let ghost hex = cs@.skip(start as int);
    let (k, acc, overshoot) = cover_tail(&cs, start);
    let ghost j = k - start;
    proof {
        assert(hex.skip(0) =~= hex);
        assert(cs@.skip(k as int) =~= hex.skip(j));
    }
    if overshoot {
        proof {
            assert(hex[j - 1] == cs@[k - 1]);
            lemma_utf8_len_skip_step(hex, j);
            lemma_utf8_len_bounds(hex, 0, j - 1);
            lemma_byte_suffix(hex, j, (40 - acc) as nat);
            assert(false);
        }
        return String::new();
    }
    let mut out = String::from_str("0x");
    if acc >= 40 {
        proof {
            lemma_utf8_len_bounds(hex, 0, j);
            if j > 0 {
                assert(utf8_width(hex[j - 1]) > 0);
            }
            lemma_byte_suffix(hex, j, 0);
        }
        push_range(&mut out, &cs, k);
    } else {
        proof {
            lemma_utf8_len_bounds(hex, 0, hex.len() as int);
            assert(hex.skip(hex.len() as int) =~= Seq::<char>::empty());
        }
        push_zeros(&mut out, 40 - (cs.len() - start));
        push_range(&mut out, &cs, start);
    }
    assert(out@ =~= address_text(protocol@, id@));
    out
}

/// What the `raw_json` text holds under `key`: the text parsed by serde_json
/// into a `Value` (`null` where the text is no JSON) and indexed by `key`. The first part is that member's text where it is a
/// JSON string (`as_str`), the second its compact JSON text as serde_json
/// writes it (`null` where the member is missing).
pub uninterp spec fn raw_json_lookup(raw: Seq<char>, key: Seq<char>) -> (Option<Seq<char>>, Seq<char>);

/// The lowercase form of a text, as std's `str::to_lowercase` gives it.
pub uninterp spec fn lowercase_text(s: Seq<char>) -> Seq<char>;

/// Whether every character of a text is ASCII.
pub open spec fn all_ascii(s: Seq<char>) -> bool {
    forall|i: int| 0 <= i < s.len() ==> ((#[trigger] s[i]) as u32) < 0x80
}

/// An ASCII upper-case letter lowered, any other character kept.
pub open spec fn ascii_lower_char(c: char) -> char {
    if 'A' <= c && c <= 'Z' {
        ((c as u32) + 32) as char
    } else {
        c
    }
}

/// A text with its ASCII upper-case letters lowered.
pub open spec fn ascii_lowercase(s: Seq<char>) -> Seq<char> {
    Seq::new(s.len(), |i: int| ascii_lower_char(s[i]))
}

/// Reads a member of a JSON text.
///
/// Trusted wrapper around `serde_json::from_str::<serde_json::Value>`, indexing
/// the value with `key`, then `Value::as_str` and serde_json's compact
/// `to_string` of the member: the result is named [`raw_json_lookup`] of the
/// text and the key; nothing else is claimed.
#[verifier::external_body]
fn json_member(raw: &str, key: &str) -> (r: (Option<String>, String))
    ensures
        (opt_text(r.0), r.1@) == raw_json_lookup(raw@, key@),
{
    let v: serde_json::Value = serde_json::from_str(raw).unwrap_or(serde_json::Value::Null);
    let member = &v[key];
    let text = match member.as_str() {
        Some(s) => Some(s.to_string()),
        None => None,
    };
    (text, member.to_string())
}

/// Lowercases a text.
///
/// Trusted wrapper around std's `str::to_lowercase`: the result is named
/// [`lowercase_text`] of the text; for ASCII text it is the text with `A` to
/// `Z` lowered to `a` to `z` (Unicode's lowercase mapping of ASCII, as in the
/// documentation's example), character for character.
#[verifier::external_body]
fn to_lowercase(s: &str) -> (r: String)
    ensures
        r@ == lowercase_text(s@),
        all_ascii(s@) ==> r@ == ascii_lowercase(s@),
{
    s.to_lowercase()
}

/// What a `raw_json` text gives for rebuilding a pool.
pub open spec fn raw_fields_of(raw: Seq<char>) -> RawJsonFieldsView {
    RawJsonFieldsView {
        fee_tier: raw_json_lookup(raw, "feeTier"@).0,
        hooks: raw_json_lookup(raw, "hooks"@).1,
        liquidity: raw_json_lookup(raw, "liquidity"@).1,
        total_value_locked_usd: raw_json_lookup(raw, "totalValueLockedUSD"@).1,
        reserve_usd: raw_json_lookup(raw, "reserveUSD"@).1,
        tick_spacing: raw_json_lookup(raw, "tickSpacing"@).1,
    }
}

/// Reads from a `raw_json` text what rebuilding its pool needs.
pub fn raw_json_fields(raw: &str) -> (r: RawJsonFields)
    ensures
        r@ == raw_fields_of(raw@),
{
    let (fee_tier, _) = json_member(raw, "feeTier");
    let (_, hooks) = json_member(raw, "hooks");
    let (_, liquidity) = json_member(raw, "liquidity");
    let (_, total_value_locked_usd) = json_member(raw, "totalValueLockedUSD");
    let (_, reserve_usd) = json_member(raw, "reserveUSD");
    let (_, tick_spacing) = json_member(raw, "tickSpacing");
    RawJsonFields { fee_tier, hooks, liquidity, total_value_locked_usd, reserve_usd, tick_spacing }
}

fn fallback_extra_text(protocol: &str, id: &str, f: &RawJsonFields) -> (r: String)
    ensures
        r@ == fallback_extra(protocol@, id@, f@),
{
    if str_eq(protocol, "V4") || str_eq(protocol, "Pancake-V4") {
        let mut out = String::from_str("{\"hooks\":");
        out.append(f.hooks.as_str());
        out.append(",\"liquidity\":");
        out.append(f.liquidity.as_str());
        out.append(",\"pool_id\":");
        push_quoted(&mut out, id);
        out.append(",\"tvl_usd\":");
        out.append(f.total_value_locked_usd.as_str());
        out.append("}");
        assert(out@ =~= fallback_extra(protocol@, id@, f@));
        out
    } else if str_eq(protocol, "V2") {
        let mut out = String::from_str("{\"reserveUSD\":");
        out.append(f.reserve_usd.as_str());
        out.append("}");
        assert(out@ =~= fallback_extra(protocol@, id@, f@));
        out
    } else {
        let mut out = String::from_str("{\"amm_type\":\"vAMM\",\"liquidity\":");
        out.append(f.liquidity.as_str());
        out.append(",\"tick_spacing\":");
        out.append(f.tick_spacing.as_str());
        out.append(",\"tvl_usd\":");
        out.append(f.total_value_locked_usd.as_str());
        out.append("}");
        assert(out@ =~= fallback_extra(protocol@, id@, f@));
        out
    }
}

/// Rebuilds a pool from a row, given its address and what its `raw_json`
/// gives: the stored `extra_data` where there is one, else the one rebuilt
/// from `raw_json`.
pub fn pool_from_row_parts(row: RawPoolRow, address: String, fields: &RawJsonFields) -> (r: UnifiedPool)
    ensures
        r@ == row_pool(row@, address@, fields@),
{
    let fee: u32 = if str_eq(row.protocol.as_str(), "V2") {
        3000
    } else {
        let t: &str = match &fields.fee_tier {
            Some(t) => t.as_str(),
            None => "0",
        };
        match parse_u32(t) {
            Some(v) => v,
            None => 0,
        }
    };
    let extra_data = match row.extra_data {
        Some(e) => e,
        None => fallback_extra_text(row.protocol.as_str(), row.id.as_str(), fields),
    };
    UnifiedPool {
        id: address,
        protocol: row.protocol,
        token0_id: row.token0_id,
        token0_symbol: row.token0_symbol,
        token1_id: row.token1_id,
        token1_symbol: row.token1_symbol,
        fee,
        decimals0: row.decimals0,
        decimals1: row.decimals1,
        raw_json: row.raw_json,
        extra_data,
        tvl_usd: row.tvl_usd,
    }
}

/// Rebuilds the pool stored in a `raw_pools` row: the address is lowercased
/// (and cut to 40 hex digits for V4 protocols), the fee is read back from
/// `raw_json` (3000 for V2), and a missing `extra_data` is rebuilt from
/// `raw_json`.
pub fn pool_from_row(row: RawPoolRow) -> (r: UnifiedPool)
    requires
        address_computable(row.protocol@, row.id@),
    ensures
        r@ == row_pool(
            row@,
            lowercase_text(address_text(row.protocol@, row.id@)),
            raw_fields_of(row.raw_json@),
        ),
        all_ascii(address_text(row.protocol@, row.id@)) ==> r@.id == ascii_lowercase(
            address_text(row.protocol@, row.id@),
        ),
        is_v4_label(row.protocol@) && all_ascii(row.id@) ==> r@.id.len() == 42,
{
    proof {
        if is_v4_label(row.protocol@) && all_ascii(row.id@) {
            lemma_ascii_v4_address(row.protocol@, row.id@);
        }
    }
    let address = to_lowercase(pool_address_text(row.protocol.as_str(), row.id.as_str()).as_str());
    let fields = raw_json_fields(row.raw_json.as_str());
    pool_from_row_parts(row, address, &fields)
}

/// A V4 address is `0x` followed by exactly 40 bytes: the last 40 bytes of
/// the id, or the id padded with zeros to 40 characters (which, for an id of
/// single-byte characters, is 40 bytes too).
pub proof fn lemma_v4_address_shape(protocol: Seq<char>, id: Seq<char>)
    requires
        is_v4_label(protocol),
        address_computable(protocol, id),
    ensures
        address_text(protocol, id).take(2) == seq!['0', 'x'],
        utf8_len(strip_hex_prefix(id)) < 40 ==> address_text(protocol, id).len() == 42,
        utf8_len(strip_hex_prefix(id)) >= 40 ==> utf8_len(address_text(protocol, id).skip(2)) == 40,
{
    reveal_strlit("0x");
    let hex = strip_hex_prefix(id);
    let a = address_text(protocol, id);
    if utf8_len(hex) >= 40 {
        assert(a.skip(2) =~= byte_suffix(hex, 40));
    } else {
        lemma_utf8_len_bounds(hex, 0, hex.len() as int);
        assert(hex.skip(0) =~= hex);
        assert(hex.skip(hex.len() as int) =~= Seq::<char>::empty());
    }
    assert(a.take(2) =~= seq!['0', 'x']);
}

proof fn lemma_ascii_utf8_len(s: Seq<char>)
    requires
        all_ascii(s),
    ensures
        utf8_len(s) == s.len(),
    decreases s.len(),
{
    if s.len() > 0 {
        assert(s.last() == s[s.len() - 1]);
        lemma_ascii_utf8_len(s.drop_last());
    }
}

proof fn lemma_strip_hex_prefix_ascii(s: Seq<char>)
    requires
        all_ascii(s),
    ensures
        all_ascii(strip_hex_prefix(s)),
    decreases s.len(),
{
    if s.len() >= 2 && s[0] == '0' && s[1] == 'x' {
        assert(all_ascii(s.skip(2))) by {
            assert forall|i: int| 0 <= i < s.skip(2).len() implies ((#[trigger] s.skip(2)[i]) as u32) < 0x80 by {
                assert(s.skip(2)[i] == s[i + 2]);
            }
        }
        lemma_strip_hex_prefix_ascii(s.skip(2));
    }
}

/// For an ASCII id of a V4 protocol the address can always be taken, is
/// ASCII, and has 42 characters (`0x` and 40 hex digits); lowercased, it keeps
/// them (see `pool_from_row`).
pub proof fn lemma_ascii_v4_address(protocol: Seq<char>, id: Seq<char>)
    requires
        is_v4_label(protocol),
        all_ascii(id),
    ensures
        address_computable(protocol, id),
        all_ascii(address_text(protocol, id)),
        address_text(protocol, id).len() == 42,
{
    reveal_strlit("0x");
    let hex = strip_hex_prefix(id);
    lemma_strip_hex_prefix_ascii(id);
    lemma_ascii_utf8_len(hex);
    let a = address_text(protocol, id);
    if hex.len() >= 40 {
        let j = hex.len() - 40;
        let tail = hex.skip(j);
        assert(all_ascii(tail)) by {
            assert forall|i: int| 0 <= i < tail.len() implies ((#[trigger] tail[i]) as u32) < 0x80 by {
                assert(tail[i] == hex[i + j]);
            }
        }
        lemma_ascii_utf8_len(tail);
        if j > 0 {
            assert((hex[j - 1] as u32) < 0x80);
        }
        lemma_byte_suffix(hex, j, 0);
        assert(byte_suffix(hex, 40) == tail);
        assert(a =~= "0x"@ + tail);
        assert forall|i: int| 0 <= i < a.len() implies ((#[trigger] a[i]) as u32) < 0x80 by {
            if i >= 2 {
                assert(a[i] == tail[i - 2]);
            }
        }
    } else {
        assert(a =~= "0x"@ + zeros((40 - hex.len()) as nat) + hex);
        assert forall|i: int| 0 <= i < a.len() implies ((#[trigger] a[i]) as u32) < 0x80 by {
            if i >= 2 + (40 - hex.len()) {
                assert(a[i] == hex[i - 2 - (40 - hex.len())]);
            } else if i >= 2 {
                assert(a[i] == '0');
            }
        }
    }
}

/// Any row reads back as what it holds: the same protocol, tokens, symbols,
/// decimals, value locked and `raw_json`; as id its address lowercased; as
/// fee 3000 for V2 and for any other protocol the number that the
/// `raw_json`'s `feeTier` string denotes ("0" where there is none, 0 where
/// it denotes none); its stored `extra_data` where it has one, and where it
/// has none (a row from before that column) the one rebuilt from `raw_json`:
/// for V4 protocols its `hooks`, `liquidity`, the row's id as `pool_id` and
/// its `totalValueLockedUSD` as `tvl_usd`; for V2 its `reserveUSD`; for any
/// other protocol the AMM type `vAMM`, its `liquidity`, `tickSpacing` and
/// `totalValueLockedUSD` as `tvl_usd`, each as the JSON text of that member.
pub proof fn lemma_row_read_back(row: RawPoolRowView)
    ensures
        ({
            let raw = row.raw_json;
            let q = row_pool(
                row,
                lowercase_text(address_text(row.protocol, row.id)),
                raw_fields_of(raw),
            );
            let liquidity = raw_json_lookup(raw, "liquidity"@).1;
            let tvl = raw_json_lookup(raw, "totalValueLockedUSD"@).1;
            &&& q.id == lowercase_text(address_text(row.protocol, row.id))
            &&& q.protocol == row.protocol
            &&& q.token0_id == row.token0_id
            &&& q.token0_symbol == row.token0_symbol
            &&& q.token1_id == row.token1_id
            &&& q.token1_symbol == row.token1_symbol
            &&& q.decimals0 == row.decimals0
            &&& q.decimals1 == row.decimals1
            &&& q.tvl_usd == row.tvl_usd
            &&& q.raw_json == row.raw_json
            &&& row.protocol == "V2"@ ==> q.fee == 3000
            &&& row.protocol != "V2"@ ==> q.fee == fee_text_value(
                match raw_json_lookup(raw, "feeTier"@).0 {
                    Some(t) => t,
                    None => "0"@,
                },
            )
            &&& row.extra_data matches Some(e) ==> q.extra_data == e
            &&& (row.extra_data is None && (row.protocol == "V4"@ || row.protocol == "Pancake-V4"@))
                ==> q.extra_data == "{\"hooks\":"@ + raw_json_lookup(raw, "hooks"@).1 + ",\"liquidity\":"@
                + liquidity + ",\"pool_id\":"@ + quoted(row.id) + ",\"tvl_usd\":"@ + tvl + "}"@
            &&& (row.extra_data is None && row.protocol == "V2"@) ==> q.extra_data == "{\"reserveUSD\":"@
                + raw_json_lookup(raw, "reserveUSD"@).1 + "}"@
            &&& (row.extra_data is None && row.protocol != "V2"@ && row.protocol != "V4"@
                && row.protocol != "Pancake-V4"@) ==> q.extra_data == "{\"amm_type\":\"vAMM\",\"liquidity\":"@
                + liquidity + ",\"tick_spacing\":"@ + raw_json_lookup(raw, "tickSpacing"@).1
                + ",\"tvl_usd\":"@ + tvl + "}"@
        }),
{
    reveal_strlit("V2");
    reveal_strlit("V4");
    reveal_strlit("Pancake-V4");
    let raw = row.raw_json;
    let t = text_or(raw_json_lookup(raw, "feeTier"@).0, "0"@);
    assert(fee_or_zero(t) == fee_text_value(t));
    assert("V2"@[1] != "V4"@[1]);
    assert("V2"@.len() != "Pancake-V4"@.len());
}

/// The `raw_pools` row that storing a pool writes: every field of the pool
/// but its fee, with its `extra_data`.
pub open spec fn stored_row(p: UnifiedPoolView) -> RawPoolRowView {
    RawPoolRowView {
        id: p.id,
        protocol: p.protocol,
        token0_id: p.token0_id,
        token0_symbol: p.token0_symbol,
        token1_id: p.token1_id,
        token1_symbol: p.token1_symbol,
        tvl_usd: p.tvl_usd,
        raw_json: p.raw_json,
        extra_data: Some(p.extra_data),
        decimals0: p.decimals0,
        decimals1: p.decimals1,
    }
}

/// What is stored reads back as it was written: a pool rebuilt from the row
/// that storing it writes has the same protocol, tokens, symbols, decimals,
/// value locked, `raw_json` and `extra_data`; its id is its address (the id
/// lowercased, and cut to 40 hex digits for V4 protocols); a V2 pool reads
/// back fee 3000, the fee every V2 pair is read with, and any other pool the
/// fee in its `raw_json`'s `feeTier`.
pub proof fn lemma_store_read_back(p: UnifiedPoolView)
    ensures
        ({
            let q = row_pool(
                stored_row(p),
                lowercase_text(address_text(p.protocol, p.id)),
                raw_fields_of(p.raw_json),
            );
            &&& q.protocol == p.protocol
            &&& q.token0_id == p.token0_id
            &&& q.token0_symbol == p.token0_symbol
            &&& q.token1_id == p.token1_id
            &&& q.token1_symbol == p.token1_symbol
            &&& q.decimals0 == p.decimals0
            &&& q.decimals1 == p.decimals1
            &&& q.tvl_usd == p.tvl_usd
            &&& q.raw_json == p.raw_json
            &&& q.extra_data == p.extra_data
            &&& q.id == lowercase_text(address_text(p.protocol, p.id))
            &&& !is_v4_label(p.protocol) ==> q.id == lowercase_text(p.id)
            &&& p.protocol == "V2"@ ==> q.fee == 3000
            &&& p.protocol != "V2"@ ==> q.fee == fee_or_zero(
                text_or(raw_json_lookup(p.raw_json, "feeTier"@).0, "0"@),
            )
        }),
{
}

/// A V2 pair read from a page and stored reads back with the fee it was read
/// with, and with every other field as the read-back law states.
pub proof fn lemma_v2_pair_read_back(body: JsonValue, i: int)
    ensures
        response_pools(Protocol::UniV2, body) matches Ok(ps) ==> (0 <= i < ps.len() ==> row_pool(
            stored_row(ps[i]),
            lowercase_text(address_text(ps[i].protocol, ps[i].id)),
            raw_fields_of(ps[i].raw_json),
        ).fee == ps[i].fee),
{
    reveal_strlit("V2");
    lemma_response_pools(Protocol::UniV2, body);
    if let Ok(ps) = response_pools(Protocol::UniV2, body) {
        if 0 <= i < ps.len() {
            assert(ps[i].protocol == Protocol::UniV2.label());
            lemma_store_read_back(ps[i]);
        }
    }
}

} // verus!
