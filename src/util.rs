//! Axis name resolution, value limits, the machine's addresses and the
//! locations of the TLS files.
use vstd::prelude::*;
use vstd::string::{StrSliceExecFns, StringExecFns};
use crate::types::Axis;

verus! {

/// The device's native upper bound of an axis value (the largest `i16`).
pub const MAX_LEVEL: i32 = 32767;

/// What `str::to_lowercase` returns for a string: its lower-case form under
/// Unicode's rules.
pub uninterp spec fn lower_of(s: Seq<char>) -> Seq<char>;

/// Relies on `str::to_lowercase`: the lower-case form of the string under
/// Unicode's rules, which depends on its characters alone.
#[verifier::external_body]
fn lowercase(s: &str) -> (r: String)
    ensures
        r@ == lower_of(s@),
{
    s.to_lowercase()
}

/// The axis whose canonical lower-case name is exactly `l`.
pub open spec fn axis_of_lower(l: Seq<char>) -> Option<Axis> {
    if l == Axis::X.name() {
        Some(Axis::X)
    } else if l == Axis::Y.name() {
        Some(Axis::Y)
    } else if l == Axis::Z.name() {
        Some(Axis::Z)
    } else if l == Axis::Rx.name() {
        Some(Axis::Rx)
    } else if l == Axis::Ry.name() {
        Some(Axis::Ry)
    } else if l == Axis::Rz.name() {
        Some(Axis::Rz)
    } else if l == Axis::Slider.name() {
        Some(Axis::Slider)
    } else if l == Axis::DialSlider.name() {
        Some(Axis::DialSlider)
    } else if l == Axis::Wheel.name() {
        Some(Axis::Wheel)
    } else if l == Axis::Accel.name() {
        Some(Axis::Accel)
    } else if l == Axis::Brake.name() {
        Some(Axis::Brake)
    } else if l == Axis::Clutch.name() {
        Some(Axis::Clutch)
    } else if l == Axis::Steering.name() {
        Some(Axis::Steering)
    } else if l == Axis::Aileron.name() {
        Some(Axis::Aileron)
    } else if l == Axis::Rudder.name() {
        Some(Axis::Rudder)
    } else if l == Axis::Throttle.name() {
        Some(Axis::Throttle)
    } else {
        None
    }
}

/// Tells whether the string equals a canonical name, character by character.
fn equals_name(l: &str, len: usize, canon: &Vec<char>) -> (r: bool)
    requires
        len == l@.len(),
    ensures
        r == (l@ == canon@),
{
    if len != canon.len() {
        return false;
    }
    let mut i: usize = 0;
    while i < len
        invariant
            len == l@.len() == canon@.len(),
            i <= len,
            forall|j: int| 0 <= j < i ==> #[trigger] l@[j] == canon@[j],
        decreases len - i,
    {
        if l.get_char(i) != canon[i] {
            return false;
        }
        i += 1;
    }
    assert(l@ =~= canon@);
    true
}

/// Resolves a name that is already in lower case: the axis whose canonical
/// name it is exactly, or `None`.
pub fn axis_from_lower(l: &str) -> (r: Option<Axis>)
    ensures
        r == axis_of_lower(l@),
{
    let len = l.unicode_len();
    if equals_name(l, len, &Axis::X.name_chars()) {
        Some(Axis::X)
    } else if equals_name(l, len, &Axis::Y.name_chars()) {
        Some(Axis::Y)
    } else if equals_name(l, len, &Axis::Z.name_chars()) {
        Some(Axis::Z)
    } else if equals_name(l, len, &Axis::Rx.name_chars()) {
        Some(Axis::Rx)
    } else if equals_name(l, len, &Axis::Ry.name_chars()) {
        Some(Axis::Ry)
    } else if equals_name(l, len, &Axis::Rz.name_chars()) {
        Some(Axis::Rz)
    } else if equals_name(l, len, &Axis::Slider.name_chars()) {
        Some(Axis::Slider)
    } else if equals_name(l, len, &Axis::DialSlider.name_chars()) {
        Some(Axis::DialSlider)
    } else if equals_name(l, len, &Axis::Wheel.name_chars()) {
        Some(Axis::Wheel)
    } else if equals_name(l, len, &Axis::Accel.name_chars()) {
        Some(Axis::Accel)
    } else if equals_name(l, len, &Axis::Brake.name_chars()) {
        Some(Axis::Brake)
    } else if equals_name(l, len, &Axis::Clutch.name_chars()) {
        Some(Axis::Clutch)
    } else if equals_name(l, len, &Axis::Steering.name_chars()) {
        Some(Axis::Steering)
    } else if equals_name(l, len, &Axis::Aileron.name_chars()) {
        Some(Axis::Aileron)
    } else if equals_name(l, len, &Axis::Rudder.name_chars()) {
        Some(Axis::Rudder)
    } else if equals_name(l, len, &Axis::Throttle.name_chars()) {
        Some(Axis::Throttle)
    } else {
        None
    }
}

/// Resolves an axis name, ignoring letter case: the name is brought to lower
/// case under Unicode's rules and must then equal a canonical name exactly.
/// An unknown name gives `None`, never a default axis.
pub fn map_axis(name: &str) -> (r: Option<Axis>)
    ensures
        r == axis_of_lower(lower_of(name@)),
{
    let lower = lowercase(name);
    axis_from_lower(lower.as_str())
}

proof fn lemma_names_distinct(a: Axis, b: Axis)
    requires
        a.name() == b.name(),
    ensures
        a == b,
{
    let (n, m) = (a.name(), b.name());
    assert(n.len() == m.len());
    assert(n[0] == m[0]);
    if n.len() > 1 {
        assert(n[1] == m[1]);
    }
}

/// Resolution ignores letter case: two names with the same lower-case form
/// resolve to the same axis; a name resolves to an axis exactly when its
/// lower-case form is that axis's canonical name, and to nothing when its
/// lower-case form is no canonical name.
pub proof fn lemma_resolution_ignores_case(s: Seq<char>, t: Seq<char>)
    ensures
        lower_of(s) == lower_of(t) ==> axis_of_lower(lower_of(s)) == axis_of_lower(lower_of(t)),
        forall|a: Axis| axis_of_lower(lower_of(s)) == Some(a) <==> lower_of(s) == #[trigger] a.name(),
        axis_of_lower(lower_of(s)) is None <==> forall|a: Axis| lower_of(s) != #[trigger] a.name(),
{
    assert forall|a: Axis| lower_of(s) == #[trigger] a.name() implies axis_of_lower(lower_of(s)) == Some(a) by {
        let b = axis_of_lower(lower_of(s))->0;
        lemma_names_distinct(a, b);
    }
}

/// The file of the server's TLS certificate, under the directory `root`.
pub fn get_cert_path(root: &str) -> (r: String)
    ensures
        r@ == root@ + "/certs/cert.pem"@,
{
    let mut r = root.to_owned();
    r.append("/certs/cert.pem");
    r
}

/// The file of the server's TLS private key, under the directory `root`.
pub fn get_key_path(root: &str) -> (r: String)
    ensures
        r@ == root@ + "/certs/key.pem"@,
{
    let mut r = root.to_owned();
    r.append("/certs/key.pem");
    r
}

/// A network address of this machine, as its octets or segments.
#[derive(Clone, Copy, Debug, PartialEq, Eq, Structural)]
pub enum IpAddress {
    V4(u8, u8, u8, u8),
    V6(u16, u16, u16, u16, u16, u16, u16, u16),
}

/// An address that a certificate of this machine names: IPv4, and neither
/// loopback (`127.0.0.0/8`), multicast (`224.0.0.0/4`) nor unspecified
/// (`0.0.0.0`).
pub open spec fn names_machine(a: IpAddress) -> bool {
    match a {
        IpAddress::V4(o0, o1, o2, o3) => {
            &&& o0 != 127
            &&& !(224 <= o0 <= 239)
            &&& !(o0 == 0 && o1 == 0 && o2 == 0 && o3 == 0)
        },
        IpAddress::V6(..) => false,
    }
}

/// The addresses of `s` that name the machine, each once, in the order of
/// their first occurrence.
pub open spec fn machine_addresses(s: Seq<IpAddress>) -> Seq<(u8, u8, u8, u8)>
    decreases s.len(),
{
    if s.len() == 0 {
        Seq::empty()
    } else {
        let prev = machine_addresses(s.drop_last());
        match s.last() {
            IpAddress::V4(o0, o1, o2, o3) => if names_machine(s.last()) && !prev.contains(
                (o0, o1, o2, o3),
            ) {
                prev.push((o0, o1, o2, o3))
            } else {
                prev
            },
            IpAddress::V6(..) => prev,
        }
    }
}

/// Picks, from the addresses of the machine's interfaces, those that its
/// certificate names: each IPv4 address that is not loopback, multicast or
/// unspecified, once, in the order of first occurrence.
pub fn select_device_ips(addrs: &Vec<IpAddress>) -> (r: Vec<(u8, u8, u8, u8)>)
    ensures
        r@ == machine_addresses(addrs@),
{
    let mut out: Vec<(u8, u8, u8, u8)> = Vec::new();
    let mut i: usize = 0;
    while i < addrs.len()
        invariant
            i <= addrs@.len(),
            out@ == machine_addresses(addrs@.take(i as int)),
        decreases addrs@.len() - i,
    {
        assert(addrs@.take(i + 1).drop_last() =~= addrs@.take(i as int));
        let a = addrs[i];
        if let IpAddress::V4(o0, o1, o2, o3) = a {
            let eligible = o0 != 127 && !(224 <= o0 && o0 <= 239) && !(o0 == 0 && o1 == 0
                && o2 == 0 && o3 == 0);
            if eligible {
                let mut seen = false;
                let mut k: usize = 0;
                while k < out.len()
                    invariant
                        k <= out@.len(),
                        seen == exists|m: int| 0 <= m < k && out@[m] == (o0, o1, o2, o3),
                    decreases out@.len() - k,
                {
                    let (p0, p1, p2, p3) = out[k];
                    if p0 == o0 && p1 == o1 && p2 == o2 && p3 == o3 {
                        seen = true;
                    }
                    k += 1;
                }
                if !seen {
                    out.push((o0, o1, o2, o3));
                }
            }
        }
        i += 1;
    }
    assert(addrs@.take(addrs@.len() as int) =~= addrs@);
    out
}

} // verus!
