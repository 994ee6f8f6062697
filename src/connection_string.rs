use vstd::prelude::*;
use crate::config_reconnection::{default_reconnection, TcpClientReconnectionConfig, MICROS_PER_SECOND};
use crate::config_socket::{default_socket_config, SocketOptimizationProfile, TcpSocketConfig};
use crate::error::ClientError;

verus! {

// Scanning.

/// The first index at or after `i` where `s` holds `c`, or `s.len()`.
pub open spec fn index_from(s: Seq<char>, c: char, i: int) -> int
    decreases s.len() - i,
{
    if i >= s.len() {
        s.len() as int
    } else if s[i] == c {
        i
    } else {
        index_from(s, c, i + 1)
    }
}

/// The first index where `s` holds `c`, or `s.len()`.
pub open spec fn first_index(s: Seq<char>, c: char) -> int {
    index_from(s, c, 0)
}

/// The last index before `i` where `s` holds `c`, or -1.
pub open spec fn last_index_before(s: Seq<char>, c: char, i: int) -> int
    decreases i,
{
    if i <= 0 {
        -1
    } else if s[i - 1] == c {
        i - 1
    } else {
        last_index_before(s, c, i - 1)
    }
}

/// The last index where `s` holds `c`, or -1.
pub open spec fn last_index(s: Seq<char>, c: char) -> int {
    last_index_before(s, c, s.len() as int)
}

/// The characters of `s` from `lo` to `hi`.
fn copy_range(s: &Vec<char>, lo: usize, hi: usize) -> (r: Vec<char>)
    requires
        lo <= hi <= s@.len(),
    ensures
        r@ == s@.subrange(lo as int, hi as int),
{
    let mut r: Vec<char> = Vec::new();
    let mut i: usize = lo;
    while i < hi
        invariant
            lo <= i <= hi <= s@.len(),
            r@ == s@.subrange(lo as int, i as int),
        decreases hi - i,
    {
        r.push(s[i]);
        i = i + 1;
        assert(r@ =~= s@.subrange(lo as int, i as int));
    }
    r
}

/// The first index of `c` in `s`, or its length.
fn find_first(s: &Vec<char>, c: char) -> (r: usize)
    ensures
        r == first_index(s@, c),
        r <= s@.len(),
{
    let mut i: usize = 0;
    while i < s.len() && s[i] != c
        invariant
            i <= s@.len(),
            index_from(s@, c, i as int) == first_index(s@, c),
        decreases s@.len() - i,
    {
        i = i + 1;
    }
    i
}

/// The last index of `c` in `s`, if any.
fn find_last(s: &Vec<char>, c: char) -> (r: Option<usize>)
    ensures
        match r {
            Some(k) => k == last_index(s@, c) && k < s@.len(),
            None => last_index(s@, c) == -1,
        },
{
    let mut i: usize = s.len();
    while i > 0 && s[i - 1] != c
        invariant
            i <= s@.len(),
            last_index_before(s@, c, i as int) == last_index(s@, c),
        decreases i,
    {
        i = i - 1;
    }
    if i == 0 {
        None
    } else {
        Some(i - 1)
    }
}

/// Whether `s` holds exactly the characters of `lit`.
fn same_chars(s: &Vec<char>, lit: &Vec<char>) -> (r: bool)
    ensures
        r == (s@ == lit@),
{
    if s.len() != lit.len() {
        return false;
    }
    let mut i: usize = 0;
    while i < s.len()
        invariant
            i <= s@.len() == lit@.len(),
            s@.subrange(0, i as int) == lit@.subrange(0, i as int),
        decreases s@.len() - i,
    {
        if s[i] != lit[i] {
            assert(s@[i as int] != lit@[i as int]);
            return false;
        }
        i = i + 1;
        assert(s@.subrange(0, i as int) =~= lit@.subrange(0, i as int));
    }
    assert(s@.subrange(0, i as int) =~= s@);
    assert(lit@.subrange(0, i as int) =~= lit@);
    true
}

/// Whether `s` begins with the characters of `lit`.
fn begins_with(s: &Vec<char>, lit: &Vec<char>) -> (r: bool)
    ensures
        r == (lit@.len() <= s@.len() && s@.subrange(0, lit@.len() as int) == lit@),
{
    if lit.len() > s.len() {
        return false;
    }
    let head = copy_range(s, 0, lit.len());
    same_chars(&head, lit)
}

// Numbers.

/// Whether every character is a decimal digit.
pub open spec fn all_digits(d: Seq<char>) -> bool {
    forall|i: int| 0 <= i < d.len() ==> '0' <= #[trigger] d[i] <= '9'
}

/// The value of a decimal digit.
pub open spec fn digit_value(c: char) -> int {
    c as int - '0' as int
}

/// The value of a string of decimal digits.
pub open spec fn digits_value(d: Seq<char>) -> int
    decreases d.len(),
{
    if d.len() == 0 {
        0
    } else {
        digits_value(d.drop_last()) * 10 + digit_value(d.last())
    }
}

/// A 32-bit unsigned decimal number: digits only, at least one, and a
/// value that fits.
pub open spec fn parse_u32(d: Seq<char>) -> Option<u32> {
    if d.len() > 0 && all_digits(d) && digits_value(d) <= u32::MAX {
        Some(digits_value(d) as u32)
    } else {
        None
    }
}

proof fn lemma_digits_value_nonneg(d: Seq<char>)
    requires
        all_digits(d),
    ensures
        digits_value(d) >= 0,
    decreases d.len(),
{
    if d.len() > 0 {
        assert(all_digits(d.drop_last()));
        lemma_digits_value_nonneg(d.drop_last());
        assert('0' <= d[d.len() - 1] <= '9');
    }
}

proof fn lemma_digits_value_grows(d: Seq<char>, j: int)
    requires
        all_digits(d),
        0 <= j <= d.len(),
    ensures
        digits_value(d.subrange(0, j)) <= digits_value(d),
    decreases d.len(),
{
    if j < d.len() {
        let p = d.drop_last();
        assert(all_digits(p));
        lemma_digits_value_grows(p, j);
        assert(p.subrange(0, j) =~= d.subrange(0, j));
        lemma_digits_value_nonneg(p);
        assert('0' <= d[d.len() - 1] <= '9');
    } else {
        assert(d.subrange(0, j) =~= d);
    }
}

/// Reads a 32-bit unsigned decimal number.
fn read_u32(d: &Vec<char>) -> (r: Option<u32>)
    ensures
        r == parse_u32(d@),
{
    if d.len() == 0 {
        return None;
    }
    let mut value: u64 = 0;
    let mut i: usize = 0;
    while i < d.len()
        invariant
            i <= d@.len(),
            all_digits(d@.subrange(0, i as int)),
            value == digits_value(d@.subrange(0, i as int)),
            value <= u32::MAX,
        decreases d@.len() - i,
    {
        let c = d[i];
        if c < '0' || c > '9' {
            assert(!all_digits(d@));
            return None;
        }
        let ghost before = d@.subrange(0, i as int);
        assert(d@.subrange(0, i + 1).drop_last() =~= before);
        value = value * 10 + (c as u64 - '0' as u64);
        i = i + 1;
        assert(all_digits(d@.subrange(0, i as int)));
        if value > 0xffff_ffff {
            proof {
                if all_digits(d@) {
                    lemma_digits_value_grows(d@, i as int);
                }
            }
            return None;
        }
    }
    assert(d@.subrange(0, i as int) =~= d@);
    Some(value as u32)
}

// Keywords.

/// The characters of `iggy://`.
pub open spec fn kw_scheme_plain() -> Seq<char> {
    seq!['i', 'g', 'g', 'y', ':', '/', '/']
}

fn kw_scheme_plain_chars() -> (r: Vec<char>)
    ensures
        r@ == kw_scheme_plain(),
{
    vec!['i', 'g', 'g', 'y', ':', '/', '/']
}

/// The characters of `iggy+tls://`.
pub open spec fn kw_scheme_tls() -> Seq<char> {
    seq!['i', 'g', 'g', 'y', '+', 't', 'l', 's', ':', '/', '/']
}

fn kw_scheme_tls_chars() -> (r: Vec<char>)
    ensures
        r@ == kw_scheme_tls(),
{
    vec!['i', 'g', 'g', 'y', '+', 't', 'l', 's', ':', '/', '/']
}

/// The characters of `pat`.
pub open spec fn kw_pat() -> Seq<char> {
    seq!['p', 'a', 't']
}

fn kw_pat_chars() -> (r: Vec<char>)
    ensures
        r@ == kw_pat(),
{
    vec!['p', 'a', 't']
}

/// The characters of `true`.
pub open spec fn kw_true() -> Seq<char> {
    seq!['t', 'r', 'u', 'e']
}

fn kw_true_chars() -> (r: Vec<char>)
    ensures
        r@ == kw_true(),
{
    vec!['t', 'r', 'u', 'e']
}

/// The characters of `false`.
pub open spec fn kw_false() -> Seq<char> {
    seq!['f', 'a', 'l', 's', 'e']
}

fn kw_false_chars() -> (r: Vec<char>)
    ensures
        r@ == kw_false(),
{
    vec!['f', 'a', 'l', 's', 'e']
}

/// The characters of `unlimited`.
pub open spec fn kw_unlimited() -> Seq<char> {
    seq!['u', 'n', 'l', 'i', 'm', 'i', 't', 'e', 'd']
}

fn kw_unlimited_chars() -> (r: Vec<char>)
    ensures
        r@ == kw_unlimited(),
{
    vec!['u', 'n', 'l', 'i', 'm', 'i', 't', 'e', 'd']
}

/// The characters of `tls_domain`.
pub open spec fn kw_tls_domain() -> Seq<char> {
    seq!['t', 'l', 's', '_', 'd', 'o', 'm', 'a', 'i', 'n']
}

fn kw_tls_domain_chars() -> (r: Vec<char>)
    ensures
        r@ == kw_tls_domain(),
{
    vec!['t', 'l', 's', '_', 'd', 'o', 'm', 'a', 'i', 'n']
}

/// The characters of `tls_ca_file`.
pub open spec fn kw_tls_ca_file() -> Seq<char> {
    seq!['t', 'l', 's', '_', 'c', 'a', '_', 'f', 'i', 'l', 'e']
}

fn kw_tls_ca_file_chars() -> (r: Vec<char>)
    ensures
        r@ == kw_tls_ca_file(),
{
    vec!['t', 'l', 's', '_', 'c', 'a', '_', 'f', 'i', 'l', 'e']
}

/// The characters of `heartbeat_interval`.
pub open spec fn kw_heartbeat_interval() -> Seq<char> {
    seq!['h', 'e', 'a', 'r', 't', 'b', 'e', 'a', 't', '_', 'i', 'n', 't', 'e', 'r', 'v', 'a', 'l']
}

fn kw_heartbeat_interval_chars() -> (r: Vec<char>)
    ensures
        r@ == kw_heartbeat_interval(),
{
    vec!['h', 'e', 'a', 'r', 't', 'b', 'e', 'a', 't', '_', 'i', 'n', 't', 'e', 'r', 'v', 'a', 'l']
}

/// The characters of `reconnection_enabled`.
pub open spec fn kw_reconnection_enabled() -> Seq<char> {
    seq!['r', 'e', 'c', 'o', 'n', 'n', 'e', 'c', 't', 'i', 'o', 'n', '_', 'e', 'n', 'a', 'b', 'l', 'e', 'd']
}

fn kw_reconnection_enabled_chars() -> (r: Vec<char>)
    ensures
        r@ == kw_reconnection_enabled(),
{
    vec!['r', 'e', 'c', 'o', 'n', 'n', 'e', 'c', 't', 'i', 'o', 'n', '_', 'e', 'n', 'a', 'b', 'l', 'e', 'd']
}

/// The characters of `reconnection_max_retries`.
pub open spec fn kw_reconnection_max_retries() -> Seq<char> {
    seq!['r', 'e', 'c', 'o', 'n', 'n', 'e', 'c', 't', 'i', 'o', 'n', '_', 'm', 'a', 'x', '_', 'r', 'e', 't', 'r', 'i', 'e', 's']
}

fn kw_reconnection_max_retries_chars() -> (r: Vec<char>)
    ensures
        r@ == kw_reconnection_max_retries(),
{
    vec!['r', 'e', 'c', 'o', 'n', 'n', 'e', 'c', 't', 'i', 'o', 'n', '_', 'm', 'a', 'x', '_', 'r', 'e', 't', 'r', 'i', 'e', 's']
}

/// The characters of `reconnection_interval`.
pub open spec fn kw_reconnection_interval() -> Seq<char> {
    seq!['r', 'e', 'c', 'o', 'n', 'n', 'e', 'c', 't', 'i', 'o', 'n', '_', 'i', 'n', 't', 'e', 'r', 'v', 'a', 'l']
}

fn kw_reconnection_interval_chars() -> (r: Vec<char>)
    ensures
        r@ == kw_reconnection_interval(),
{
    vec!['r', 'e', 'c', 'o', 'n', 'n', 'e', 'c', 't', 'i', 'o', 'n', '_', 'i', 'n', 't', 'e', 'r', 'v', 'a', 'l']
}

/// The characters of `reestablish_after`.
pub open spec fn kw_reestablish_after() -> Seq<char> {
    seq!['r', 'e', 'e', 's', 't', 'a', 'b', 'l', 'i', 's', 'h', '_', 'a', 'f', 't', 'e', 'r']
}

fn kw_reestablish_after_chars() -> (r: Vec<char>)
    ensures
        r@ == kw_reestablish_after(),
{
    vec!['r', 'e', 'e', 's', 't', 'a', 'b', 'l', 'i', 's', 'h', '_', 'a', 'f', 't', 'e', 'r']
}

/// The characters of `nodelay`.
pub open spec fn kw_nodelay() -> Seq<char> {
    seq!['n', 'o', 'd', 'e', 'l', 'a', 'y']
}

fn kw_nodelay_chars() -> (r: Vec<char>)
    ensures
        r@ == kw_nodelay(),
{
    vec!['n', 'o', 'd', 'e', 'l', 'a', 'y']
}

/// The characters of `socket_profile`.
pub open spec fn kw_socket_profile() -> Seq<char> {
    seq!['s', 'o', 'c', 'k', 'e', 't', '_', 'p', 'r', 'o', 'f', 'i', 'l', 'e']
}

fn kw_socket_profile_chars() -> (r: Vec<char>)
    ensures
        r@ == kw_socket_profile(),
{
    vec!['s', 'o', 'c', 'k', 'e', 't', '_', 'p', 'r', 'o', 'f', 'i', 'l', 'e']
}

/// The characters of `lowest_latency`.
pub open spec fn kw_lowest_latency() -> Seq<char> {
    seq!['l', 'o', 'w', 'e', 's', 't', '_', 'l', 'a', 't', 'e', 'n', 'c', 'y']
}

fn kw_lowest_latency_chars() -> (r: Vec<char>)
    ensures
        r@ == kw_lowest_latency(),
{
    vec!['l', 'o', 'w', 'e', 's', 't', '_', 'l', 'a', 't', 'e', 'n', 'c', 'y']
}

/// The characters of `balanced`.
pub open spec fn kw_balanced() -> Seq<char> {
    seq!['b', 'a', 'l', 'a', 'n', 'c', 'e', 'd']
}

fn kw_balanced_chars() -> (r: Vec<char>)
    ensures
        r@ == kw_balanced(),
{
    vec!['b', 'a', 'l', 'a', 'n', 'c', 'e', 'd']
}

/// The characters of `highest_throughput`.
pub open spec fn kw_highest_throughput() -> Seq<char> {
    seq!['h', 'i', 'g', 'h', 'e', 's', 't', '_', 't', 'h', 'r', 'o', 'u', 'g', 'h', 'p', 'u', 't']
}

fn kw_highest_throughput_chars() -> (r: Vec<char>)
    ensures
        r@ == kw_highest_throughput(),
{
    vec!['h', 'i', 'g', 'h', 'e', 's', 't', '_', 't', 'h', 'r', 'o', 'u', 'g', 'h', 'p', 'u', 't']
}

/// The characters of `us`.
pub open spec fn kw_unit_us() -> Seq<char> {
    seq!['u', 's']
}

fn kw_unit_us_chars() -> (r: Vec<char>)
    ensures
        r@ == kw_unit_us(),
{
    vec!['u', 's']
}

/// The characters of `ms`.
pub open spec fn kw_unit_ms() -> Seq<char> {
    seq!['m', 's']
}

fn kw_unit_ms_chars() -> (r: Vec<char>)
    ensures
        r@ == kw_unit_ms(),
{
    vec!['m', 's']
}

/// The characters of `s`.
pub open spec fn kw_unit_s() -> Seq<char> {
    seq!['s']
}

fn kw_unit_s_chars() -> (r: Vec<char>)
    ensures
        r@ == kw_unit_s(),
{
    vec!['s']
}

/// The characters of `m`.
pub open spec fn kw_unit_m() -> Seq<char> {
    seq!['m']
}

fn kw_unit_m_chars() -> (r: Vec<char>)
    ensures
        r@ == kw_unit_m(),
{
    vec!['m']
}

/// The characters of `h`.
pub open spec fn kw_unit_h() -> Seq<char> {
    seq!['h']
}

fn kw_unit_h_chars() -> (r: Vec<char>)
    ensures
        r@ == kw_unit_h(),
{
    vec!['h']
}

// Values.

/// The end of the run of digits that starts at `i`.
pub open spec fn digits_end(s: Seq<char>, i: int) -> int
    decreases s.len() - i,
{
    if i >= s.len() {
        s.len() as int
    } else if '0' <= s[i] <= '9' {
        digits_end(s, i + 1)
    } else {
        i
    }
}

/// Microseconds per unit of a duration: `us`, `ms`, `s`, `m` or `h`.
pub open spec fn unit_micros(u: Seq<char>) -> Option<u64> {
    if u == kw_unit_us() {
        Some(1)
    } else if u == kw_unit_ms() {
        Some(1000)
    } else if u == kw_unit_s() {
        Some(MICROS_PER_SECOND)
    } else if u == kw_unit_m() {
        Some(60000000)
    } else if u == kw_unit_h() {
        Some(3600000000)
    } else {
        None
    }
}

/// A duration in microseconds, written as a 32-bit decimal count followed
/// by its unit, as in `500ms` or `5s`.
pub open spec fn parse_duration(v: Seq<char>) -> Option<u64> {
    let k = digits_end(v, 0);
    match (parse_u32(v.subrange(0, k)), unit_micros(v.subrange(k, v.len() as int))) {
        (Some(n), Some(f)) => Some((n * f) as u64),
        _ => None,
    }
}

/// `true` or `false`.
pub open spec fn parse_bool(v: Seq<char>) -> Option<bool> {
    if v == kw_true() {
        Some(true)
    } else if v == kw_false() {
        Some(false)
    } else {
        None
    }
}

/// A retry limit: `unlimited`, or a 32-bit decimal count.
pub open spec fn parse_max_retries(v: Seq<char>) -> Option<Option<u32>> {
    if v == kw_unlimited() {
        Some(None)
    } else {
        match parse_u32(v) {
            Some(n) => Some(Some(n)),
            None => None,
        }
    }
}

/// A socket profile name.
pub open spec fn parse_profile(v: Seq<char>) -> Option<SocketOptimizationProfile> {
    if v == kw_lowest_latency() {
        Some(SocketOptimizationProfile::LowestLatency)
    } else if v == kw_balanced() {
        Some(SocketOptimizationProfile::Balanced)
    } else if v == kw_highest_throughput() {
        Some(SocketOptimizationProfile::HighestThroughput)
    } else {
        None
    }
}

fn read_duration(v: &Vec<char>) -> (r: Option<u64>)
    ensures
        r == parse_duration(v@),
{
    let mut k: usize = 0;
    while k < v.len() && v[k] >= '0' && v[k] <= '9'
        invariant
            k <= v@.len(),
            digits_end(v@, k as int) == digits_end(v@, 0),
        decreases v@.len() - k,
    {
        k = k + 1;
    }
    let count = read_u32(&copy_range(v, 0, k));
    let unit = copy_range(v, k, v.len());
    let factor: u64 = if same_chars(&unit, &kw_unit_us_chars()) {
        1
    } else if same_chars(&unit, &kw_unit_ms_chars()) {
        1000
    } else if same_chars(&unit, &kw_unit_s_chars()) {
        MICROS_PER_SECOND
    } else if same_chars(&unit, &kw_unit_m_chars()) {
        60000000
    } else if same_chars(&unit, &kw_unit_h_chars()) {
        3600000000
    } else {
        return None;
    };
    match count {
        Some(n) => {
            assert(n as u64 * factor <= u64::MAX) by (nonlinear_arith)
                requires
                    n <= u32::MAX,
                    factor <= 3600000000u64,
            ;
            Some(n as u64 * factor)
        },
        None => None,
    }
}

fn read_bool(v: &Vec<char>) -> (r: Option<bool>)
    ensures
        r == parse_bool(v@),
{
    if same_chars(v, &kw_true_chars()) {
        Some(true)
    } else if same_chars(v, &kw_false_chars()) {
        Some(false)
    } else {
        None
    }
}

fn read_max_retries(v: &Vec<char>) -> (r: Option<Option<u32>>)
    ensures
        r == parse_max_retries(v@),
{
    if same_chars(v, &kw_unlimited_chars()) {
        Some(None)
    } else {
        match read_u32(v) {
            Some(n) => Some(Some(n)),
            None => None,
        }
    }
}

fn read_profile(v: &Vec<char>) -> (r: Option<SocketOptimizationProfile>)
    ensures
        r == parse_profile(v@),
{
    if same_chars(v, &kw_lowest_latency_chars()) {
        Some(SocketOptimizationProfile::LowestLatency)
    } else if same_chars(v, &kw_balanced_chars()) {
        Some(SocketOptimizationProfile::Balanced)
    } else if same_chars(v, &kw_highest_throughput_chars()) {
        Some(SocketOptimizationProfile::HighestThroughput)
    } else {
        None
    }
}

// Options.

/// The settings that query options can change, as plain values.
pub struct OptionsModel {
    pub tls_domain: Option<Seq<char>>,
    pub tls_ca_file: Option<Seq<char>>,
    pub heartbeat_interval_micros: u64,
    pub reconnection: TcpClientReconnectionConfig,
    pub nodelay: bool,
    pub socket_profile: SocketOptimizationProfile,
}

/// The settings when no option is given.
pub open spec fn default_options() -> OptionsModel {
    OptionsModel {
        tls_domain: None,
        tls_ca_file: None,
        heartbeat_interval_micros: (5 * MICROS_PER_SECOND) as u64,
        reconnection: default_reconnection(),
        nodelay: false,
        socket_profile: SocketOptimizationProfile::Balanced,
    }
}

/// The settings after the option `name=value`; an unknown name or a value
/// that does not parse is an invalid connection string.
pub open spec fn apply_option(o: OptionsModel, name: Seq<char>, value: Seq<char>) -> Result<
    OptionsModel,
    ClientError,
> {
    let bad = Err(ClientError::InvalidConnectionString);
    if name == kw_tls_domain() {
        Ok(OptionsModel { tls_domain: Some(value), ..o })
    } else if name == kw_tls_ca_file() {
        Ok(OptionsModel { tls_ca_file: Some(value), ..o })
    } else if name == kw_heartbeat_interval() {
        match parse_duration(value) {
            Some(d) => Ok(OptionsModel { heartbeat_interval_micros: d, ..o }),
            None => bad,
        }
    } else if name == kw_reconnection_enabled() {
        match parse_bool(value) {
            Some(b) => Ok(
                OptionsModel {
                    reconnection: TcpClientReconnectionConfig { enabled: b, ..o.reconnection },
                    ..o
                },
            ),
            None => bad,
        }
    } else if name == kw_reconnection_max_retries() {
        match parse_max_retries(value) {
            Some(m) => Ok(
                OptionsModel {
                    reconnection: TcpClientReconnectionConfig { max_retries: m, ..o.reconnection },
                    ..o
                },
            ),
            None => bad,
        }
    } else if name == kw_reconnection_interval() {
        match parse_duration(value) {
            Some(d) => Ok(
                OptionsModel {
                    reconnection: TcpClientReconnectionConfig { interval_micros: d, ..o.reconnection },
                    ..o
                },
            ),
            None => bad,
        }
    } else if name == kw_reestablish_after() {
        match parse_duration(value) {
            Some(d) => Ok(
                OptionsModel {
                    reconnection: TcpClientReconnectionConfig {
                        reestablish_after_micros: d,
                        ..o.reconnection
                    },
                    ..o
                },
            ),
            None => bad,
        }
    } else if name == kw_nodelay() {
        match parse_bool(value) {
            Some(b) => Ok(OptionsModel { nodelay: b, ..o }),
            None => bad,
        }
    } else if name == kw_socket_profile() {
        match parse_profile(value) {
            Some(p) => Ok(OptionsModel { socket_profile: p, ..o }),
            None => bad,
        }
    } else {
        bad
    }
}

/// The settings after one `name=value` pair; a pair without `=` is an
/// invalid connection string.
pub open spec fn apply_pair(o: OptionsModel, pair: Seq<char>) -> Result<OptionsModel, ClientError> {
    let k = first_index(pair, '=');
    if k >= pair.len() {
        Err(ClientError::InvalidConnectionString)
    } else {
        apply_option(o, pair.subrange(0, k), pair.subrange(k + 1, pair.len() as int))
    }
}

/// The settings after the `&`-separated pairs of a query, applied in order.
pub open spec fn apply_query(o: OptionsModel, q: Seq<char>) -> Result<OptionsModel, ClientError>
    decreases q.len(),
{
    let k = first_index(q, '&');
    match apply_pair(o, q.subrange(0, k)) {
        Err(e) => Err(e),
        Ok(next) => if k >= q.len() || k < 0 {
            Ok(next)
        } else {
            apply_query(next, q.subrange(k + 1, q.len() as int))
        },
    }
}

/// Query options as the client reads them.
#[derive(Debug, Clone, PartialEq, Eq)]
pub struct ConnectionOptions {
    pub tls_domain: Option<Vec<char>>,
    pub tls_ca_file: Option<Vec<char>>,
    pub heartbeat_interval_micros: u64,
    pub reconnection: TcpClientReconnectionConfig,
    pub nodelay: bool,
    pub socket_profile: SocketOptimizationProfile,
}

/// The characters of an optional string.
pub open spec fn opt_chars(v: Option<Vec<char>>) -> Option<Seq<char>> {
    match v {
        Some(s) => Some(s@),
        None => None,
    }
}

impl View for ConnectionOptions {
    type V = OptionsModel;

    open spec fn view(&self) -> OptionsModel {
        OptionsModel {
            tls_domain: opt_chars(self.tls_domain),
            tls_ca_file: opt_chars(self.tls_ca_file),
            heartbeat_interval_micros: self.heartbeat_interval_micros,
            reconnection: self.reconnection,
            nodelay: self.nodelay,
            socket_profile: self.socket_profile,
        }
    }
}

fn default_connection_options() -> (r: ConnectionOptions)
    ensures
        r@ == default_options(),
{
    ConnectionOptions {
        tls_domain: None,
        tls_ca_file: None,
        heartbeat_interval_micros: 5 * MICROS_PER_SECOND,
        reconnection: TcpClientReconnectionConfig::default(),
        nodelay: false,
        socket_profile: SocketOptimizationProfile::Balanced,
    }
}

fn set_option(o: &mut ConnectionOptions, name: &Vec<char>, value: Vec<char>) -> (r: Result<
    (),
    ClientError,
>)
    ensures
        match r {
            Ok(_) => apply_option(old(o)@, name@, value@) == Ok::<OptionsModel, ClientError>(
                final(o)@,
            ),
            Err(e) => apply_option(old(o)@, name@, value@) == Err::<OptionsModel, ClientError>(e),
        },
{
    let bad = Err(ClientError::InvalidConnectionString);
    if same_chars(name, &kw_tls_domain_chars()) {
        o.tls_domain = Some(value);
    } else if same_chars(name, &kw_tls_ca_file_chars()) {
        o.tls_ca_file = Some(value);
    } else if same_chars(name, &kw_heartbeat_interval_chars()) {
        match read_duration(&value) {
            Some(d) => o.heartbeat_interval_micros = d,
            None => return bad,
        }
    } else if same_chars(name, &kw_reconnection_enabled_chars()) {
        match read_bool(&value) {
            Some(b) => o.reconnection.enabled = b,
            None => return bad,
        }
    } else if same_chars(name, &kw_reconnection_max_retries_chars()) {
        match read_max_retries(&value) {
            Some(m) => o.reconnection.max_retries = m,
            None => return bad,
        }
    } else if same_chars(name, &kw_reconnection_interval_chars()) {
        match read_duration(&value) {
            Some(d) => o.reconnection.interval_micros = d,
            None => return bad,
        }
    } else if same_chars(name, &kw_reestablish_after_chars()) {
        match read_duration(&value) {
            Some(d) => o.reconnection.reestablish_after_micros = d,
            None => return bad,
        }
    } else if same_chars(name, &kw_nodelay_chars()) {
        match read_bool(&value) {
            Some(b) => o.nodelay = b,
            None => return bad,
        }
    } else if same_chars(name, &kw_socket_profile_chars()) {
        match read_profile(&value) {
            Some(p) => o.socket_profile = p,
            None => return bad,
        }
    } else {
        return bad;
    }
    Ok(())
}

fn set_pair(o: &mut ConnectionOptions, pair: &Vec<char>) -> (r: Result<(), ClientError>)
    ensures
        match r {
            Ok(_) => apply_pair(old(o)@, pair@) == Ok::<OptionsModel, ClientError>(final(o)@),
            Err(e) => apply_pair(old(o)@, pair@) == Err::<OptionsModel, ClientError>(e),
        },
{
    let k = find_first(pair, '=');
    if k >= pair.len() {
        return Err(ClientError::InvalidConnectionString);
    }
    let name = copy_range(pair, 0, k);
    let value = copy_range(pair, k + 1, pair.len());
    set_option(o, &name, value)
}

/// Applies the options of a query, in order.
fn set_query(o: &mut ConnectionOptions, query: &Vec<char>) -> (r: Result<(), ClientError>)
    ensures
        match r {
            Ok(_) => apply_query(old(o)@, query@) == Ok::<OptionsModel, ClientError>(final(o)@),
            Err(e) => apply_query(old(o)@, query@) == Err::<OptionsModel, ClientError>(e),
        },
{
    let mut rest = copy_range(query, 0, query.len());
    assert(rest@ =~= query@);
    loop
        invariant
            apply_query(old(o)@, query@) == apply_query(o@, rest@),
        decreases rest@.len(),
    {
        let k = find_first(&rest, '&');
        let pair = copy_range(&rest, 0, k);
        let ghost here = o@;
        match set_pair(o, &pair) {
            Err(e) => return Err(e),
            Ok(_) => {},
        }
        if k >= rest.len() {
            return Ok(());
        }
        let next = copy_range(&rest, k + 1, rest.len());
        assert(apply_query(here, rest@) == apply_query(o@, next@));
        rest = next;
    }
}

// The whole string.

/// Sign-in credentials as plain values.
pub enum CredentialsModel {
    UsernamePassword(Seq<char>, Seq<char>),
    PersonalAccessToken(Seq<char>),
}

/// `user:password`, or `pat:token` for a personal access token; both parts
/// non-empty.
pub open spec fn parse_credentials(cr: Seq<char>) -> Option<CredentialsModel> {
    let k = first_index(cr, ':');
    if k <= 0 || k + 1 >= cr.len() {
        None
    } else if cr.subrange(0, k) == kw_pat() {
        Some(CredentialsModel::PersonalAccessToken(cr.subrange(k + 1, cr.len() as int)))
    } else {
        Some(
            CredentialsModel::UsernamePassword(
                cr.subrange(0, k),
                cr.subrange(k + 1, cr.len() as int),
            ),
        )
    }
}

/// `host:port`: a non-empty host, then after the last `:` a port number
/// up to 65535.
pub open spec fn valid_address(a: Seq<char>) -> bool {
    let k = last_index(a, ':');
    k > 0 && match parse_u32(a.subrange(k + 1, a.len() as int)) {
        Some(p) => p <= 65535,
        None => false,
    }
}

/// Whether `s` begins with `lit`.
pub open spec fn starts_with(s: Seq<char>, lit: Seq<char>) -> bool {
    lit.len() <= s.len() && s.subrange(0, lit.len() as int) == lit
}

/// A parsed connection string as plain values.
pub struct ConnectionModel {
    pub tls_enabled: bool,
    pub server_address: Seq<char>,
    pub credentials: Option<CredentialsModel>,
    pub options: OptionsModel,
}

/// What `iggy[+tls]://[creds@]host:port[?name=value&...]` means: the scheme
/// picks TLS, credentials stand before the last `@`, the query starts at
/// the first `?`, and a TLS connection needs a `tls_domain` option. Any
/// other shape is an invalid connection string.
pub open spec fn parse_connection(s: Seq<char>) -> Result<ConnectionModel, ClientError> {
    let bad = Err(ClientError::InvalidConnectionString);
    let tls = !starts_with(s, kw_scheme_plain());
    let p = if tls {
        kw_scheme_tls().len()
    } else {
        kw_scheme_plain().len()
    };
    if !starts_with(s, kw_scheme_plain()) && !starts_with(s, kw_scheme_tls()) {
        bad
    } else {
        let rest = s.subrange(p as int, s.len() as int);
        let q = first_index(rest, '?');
        let main = rest.subrange(0, q);
        let at = last_index(main, '@');
        let address = main.subrange(at + 1, main.len() as int);
        let credentials = if at < 0 {
            Some(None)
        } else {
            match parse_credentials(main.subrange(0, at)) {
                Some(c) => Some(Some(c)),
                None => None,
            }
        };
        let options = if q < rest.len() {
            apply_query(default_options(), rest.subrange(q + 1, rest.len() as int))
        } else {
            Ok(default_options())
        };
        match credentials {
            None => bad,
            Some(c) => match options {
                Err(e) => Err(e),
                Ok(o) => if !valid_address(address) || (tls && o.tls_domain is None) {
                    bad
                } else {
                    Ok(ConnectionModel { tls_enabled: tls, server_address: address, credentials: c, options: o })
                },
            },
        }
    }
}

/// Sign-in credentials read from a connection string.
#[derive(Debug, Clone, PartialEq, Eq)]
pub enum ParsedCredentials {
    UsernamePassword(Vec<char>, Vec<char>),
    PersonalAccessToken(Vec<char>),
}

impl View for ParsedCredentials {
    type V = CredentialsModel;

    open spec fn view(&self) -> CredentialsModel {
        match self {
            ParsedCredentials::UsernamePassword(u, p) => CredentialsModel::UsernamePassword(u@, p@),
            ParsedCredentials::PersonalAccessToken(t) => CredentialsModel::PersonalAccessToken(t@),
        }
    }
}

/// A parsed connection string.
#[derive(Debug, Clone, PartialEq, Eq)]
pub struct ConnectionString {
    pub tls_enabled: bool,
    pub server_address: Vec<char>,
    pub credentials: Option<ParsedCredentials>,
    pub options: ConnectionOptions,
}

impl View for ConnectionString {
    type V = ConnectionModel;

    open spec fn view(&self) -> ConnectionModel {
        ConnectionModel {
            tls_enabled: self.tls_enabled,
            server_address: self.server_address@,
            credentials: match self.credentials {
                Some(c) => Some(c@),
                None => None,
            },
            options: self.options@,
        }
    }
}

fn read_credentials(cr: &Vec<char>) -> (r: Option<ParsedCredentials>)
    ensures
        match r {
            Some(c) => parse_credentials(cr@) == Some(c@),
            None => parse_credentials(cr@) is None,
        },
{
    let k = find_first(cr, ':');
    if k == 0 || k >= cr.len() || cr.len() - k < 2 {
        return None;
    }
    let user = copy_range(cr, 0, k);
    let secret = copy_range(cr, k + 1, cr.len());
    if same_chars(&user, &kw_pat_chars()) {
        Some(ParsedCredentials::PersonalAccessToken(secret))
    } else {
        Some(ParsedCredentials::UsernamePassword(user, secret))
    }
}

fn check_address(a: &Vec<char>) -> (r: bool)
    ensures
        r == valid_address(a@),
{
    match find_last(a, ':') {
        None => false,
        Some(k) => {
            if k == 0 || k >= a.len() {
                return false;
            }
            match read_u32(&copy_range(a, k + 1, a.len())) {
                Some(p) => p <= 65535,
                None => false,
            }
        },
    }
}

/// Parses a connection string of the form
/// `iggy[+tls]://[creds@]host:port[?name=value&...]`.
pub fn parse_connection_string(s: &Vec<char>) -> (r: Result<ConnectionString, ClientError>)
    ensures
        match r {
            Ok(c) => parse_connection(s@) == Ok::<ConnectionModel, ClientError>(c@),
            Err(e) => parse_connection(s@) == Err::<ConnectionModel, ClientError>(e),
        },
{
    let plain = kw_scheme_plain_chars();
    let secure = kw_scheme_tls_chars();
    let tls = !begins_with(s, &plain);
    if tls && !begins_with(s, &secure) {
        return Err(ClientError::InvalidConnectionString);
    }
    let p = if tls {
        secure.len()
    } else {
        plain.len()
    };
    let rest = copy_range(s, p, s.len());
    let q = find_first(&rest, '?');
    let main = copy_range(&rest, 0, q);
    let at = find_last(&main, '@');
    let (address, credentials) = match at {
        None => (copy_range(&main, 0, main.len()), None),
        Some(k) => {
            match read_credentials(&copy_range(&main, 0, k)) {
                None => return Err(ClientError::InvalidConnectionString),
                Some(c) => (copy_range(&main, k + 1, main.len()), Some(c)),
            }
        },
    };
    proof {
        if at is None {
            assert(main@.subrange(0, main@.len() as int) =~= main@.subrange(
                last_index(main@, '@') + 1,
                main@.len() as int,
            ));
        }
    }
    let mut options = default_connection_options();
    if q < rest.len() {
        let query = copy_range(&rest, q + 1, rest.len());
        match set_query(&mut options, &query) {
            Err(e) => return Err(e),
            Ok(_) => {},
        }
    }
    if !check_address(&address) || (tls && options.tls_domain.is_none()) {
        return Err(ClientError::InvalidConnectionString);
    }
    Ok(ConnectionString { tls_enabled: tls, server_address: address, credentials, options })
}

impl ConnectionString {
    /// The default socket configuration with the profile that the string
    /// asks for.
    pub fn socket_config(&self) -> (r: TcpSocketConfig)
        ensures
            r == (TcpSocketConfig {
                optimization_profile: self.options.socket_profile,
                ..default_socket_config()
            }),
    {
        TcpSocketConfig::default().with_optimization_profile(self.options.socket_profile)
    }
}

} // verus!
