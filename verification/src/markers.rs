//! The textual markers the pipeline discloses and classifies on: the
//! `game_count` outcome markers, the per-game `appid` marker, the request
//! `Host` header, and the decimal rendering they need.

use vstd::prelude::*;

verus! {

/// Decimal digits of `n`, most significant first, as ASCII bytes.
pub open spec fn spec_dec(n: nat) -> Seq<u8>
    decreases n,
{
    if n < 10 {
        seq![(48 + n) as u8]
    } else {
        spec_dec(n / 10).push((48 + n % 10) as u8)
    }
}

/// ASCII decimal rendering of `n`, most significant digit first.
pub fn u32_to_dec(n: u32) -> (v: Vec<u8>)
    ensures
        v@ == spec_dec(n as nat),
    decreases n,
{
    if n < 10 {
        let mut v: Vec<u8> = Vec::new();
        v.push(48 + (n as u8));
        assert(v@ =~= spec_dec(n as nat));
        v
    } else {
        let mut v = u32_to_dec(n / 10);
        v.push(48 + ((n % 10) as u8));
        v
    }
}

/// Every byte of a decimal rendering is an ASCII digit.
pub proof fn lemma_dec_digits_are_ascii(n: nat)
    ensures
        forall|k: int| 0 <= k < spec_dec(n).len() ==> 48 <= #[trigger] spec_dec(n)[k] <= 57,
    decreases n,
{
    if n >= 10 {
        lemma_dec_digits_are_ascii(n / 10);
        assert forall|k: int| 0 <= k < spec_dec(n).len() implies 48 <= #[trigger] spec_dec(n)[k]
            <= 57 by {
            if k < spec_dec(n / 10).len() {
                assert(spec_dec(n)[k] == spec_dec(n / 10)[k]);
            } else {
                assert(spec_dec(n)[k] == (48 + n % 10) as u8);
            }
        }
    }
}

/// The bytes of `"game_count":`, the key the filtered owned-games response
/// reports its match count under.
pub open spec fn spec_game_count_prefix() -> Seq<u8> {
    seq![34u8, 103u8, 97u8, 109u8, 101u8, 95u8, 99u8, 111u8, 117u8, 110u8, 116u8, 34u8, 58u8]
}

/// The marker proving the filtered response reported exactly one game:
/// `"game_count":1`.
pub open spec fn spec_true_marker() -> Seq<u8> {
    spec_game_count_prefix().push(49u8)
}

/// The marker proving the filtered response reported no game:
/// `"game_count":0`.
pub open spec fn spec_false_marker() -> Seq<u8> {
    spec_game_count_prefix().push(48u8)
}

/// The outcome marker for `owned`: `"game_count":1` when true,
/// `"game_count":0` when false.
pub fn game_count_marker(owned: bool) -> (v: Vec<u8>)
    ensures
        v@ == if owned {
            spec_true_marker()
        } else {
            spec_false_marker()
        },
{
    let mut v: Vec<u8> = Vec::new();
    v.push(34);
    v.push(103);
    v.push(97);
    v.push(109);
    v.push(101);
    v.push(95);
    v.push(99);
    v.push(111);
    v.push(117);
    v.push(110);
    v.push(116);
    v.push(34);
    v.push(58);
    assert(v@ =~= spec_game_count_prefix());
    if owned {
        v.push(49);
    } else {
        v.push(48);
    }
    v
}

/// The bytes of `"appid":`, the key whose value identifies a game entry.
pub open spec fn spec_appid_prefix() -> Seq<u8> {
    seq![34u8, 97u8, 112u8, 112u8, 105u8, 100u8, 34u8, 58u8]
}

/// The minimal substring proving a specific game entry is present:
/// `"appid":` followed by the decimal app id.
pub open spec fn spec_appid_marker(app_id: nat) -> Seq<u8> {
    spec_appid_prefix() + spec_dec(app_id)
}

/// The `"appid":<app_id>` marker as bytes.
pub fn appid_marker(app_id: u32) -> (v: Vec<u8>)
    ensures
        v@ == spec_appid_marker(app_id as nat),
{
    let mut v: Vec<u8> = Vec::new();
    v.push(34);
    v.push(97);
    v.push(112);
    v.push(112);
    v.push(105);
    v.push(100);
    v.push(34);
    v.push(58);
    assert(v@ =~= spec_appid_prefix());
    let mut d = u32_to_dec(app_id);
    v.append(&mut d);
    v
}

/// The hostname every attested request must have gone to.
pub open spec fn spec_expected_host() -> Seq<char> {
    "api.steampowered.com"@
}

/// The expected API hostname, `api.steampowered.com`.
pub fn expected_host() -> (s: String)
    ensures
        s@ == spec_expected_host(),
{
    let s: &str = "api.steampowered.com";
    s.to_owned()
}

/// The request header line that names the destination host:
/// `Host: api.steampowered.com`.
pub open spec fn spec_host_header_marker() -> Seq<u8> {
    seq![
        72u8, 111u8, 115u8, 116u8, 58u8, 32u8, 97u8, 112u8, 105u8, 46u8, 115u8, 116u8, 101u8,
        97u8, 109u8, 112u8, 111u8, 119u8, 101u8, 114u8, 101u8, 100u8, 46u8, 99u8, 111u8, 109u8,
    ]
}

/// The `Host: api.steampowered.com` header line as bytes.
pub fn host_header_marker() -> (v: Vec<u8>)
    ensures
        v@ == spec_host_header_marker(),
{
    let mut v: Vec<u8> = Vec::new();
    v.push(72);
    v.push(111);
    v.push(115);
    v.push(116);
    v.push(58);
    v.push(32);
    v.push(97);
    v.push(112);
    v.push(105);
    v.push(46);
    v.push(115);
    v.push(116);
    v.push(101);
    v.push(97);
    v.push(109);
    v.push(112);
    v.push(111);
    v.push(119);
    v.push(101);
    v.push(114);
    v.push(101);
    v.push(100);
    v.push(46);
    v.push(99);
    v.push(111);
    v.push(109);
    assert(v@ =~= spec_host_header_marker());
    v
}

} // verus!
