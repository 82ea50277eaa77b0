//! Deterministic placeholder descriptors derived from the input path.

use std::hash::{Hash, Hasher};
use vstd::prelude::*;

verus! {

/// The digest that `DefaultHasher::new()` reports after hashing a string.
pub uninterp spec fn default_hash_of(s: Seq<char>) -> u64;

/// Relies on `std::collections::hash_map::DefaultHasher`: every hasher made by
/// `new` starts from the same fixed keys, so hashing a `str` (its `Hash` impl)
/// and calling `finish` gives a value that depends on the string alone.
#[verifier::external_body]
fn default_hash(s: &str) -> (r: u64)
    ensures
        r == default_hash_of(s@),
{
    let mut hasher = std::collections::hash_map::DefaultHasher::new();
    s.hash(&mut hasher);
    hasher.finish()
}

/// The 32-bit seed of a path: the low half of its default hash.
pub open spec fn seed_of(path: Seq<char>) -> u32 {
    (default_hash_of(path) % 0x1_0000_0000) as u32
}

/// The seed from which every placeholder descriptor is derived.
pub fn pseudo_from(input: &str) -> (r: u32)
    ensures
        r == seed_of(input@),
{
    let h = default_hash(input);
    assert(h & 0xFFFF_FFFFu64 == h % 0x1_0000_0000) by (bit_vector);
    (h & 0xFFFF_FFFF) as u32
}

/// The number of key roots that a placeholder key is drawn from.
pub const KEY_ROOT_COUNT: u32 = 15;

/// The key root at a position of the fixed table
/// `C G D A E B F# C# F Bb Eb Ab Db Gb Cb`.
pub open spec fn key_root_name(i: int) -> Seq<char> {
    seq![
        seq!['C'],
        seq!['G'],
        seq!['D'],
        seq!['A'],
        seq!['E'],
        seq!['B'],
        seq!['F', '#'],
        seq!['C', '#'],
        seq!['F'],
        seq!['B', 'b'],
        seq!['E', 'b'],
        seq!['A', 'b'],
        seq!['D', 'b'],
        seq!['G', 'b'],
        seq!['C', 'b'],
    ][i]
}

/// The mode at a position of the fixed table `maj min`.
pub open spec fn mode_name(i: int) -> Seq<char> {
    if i == 0 {
        seq!['m', 'a', 'j']
    } else {
        seq!['m', 'i', 'n']
    }
}

/// The placeholder key label of a seed: a root, a space and a mode.
pub open spec fn key_label_of(seed: u32) -> Seq<char> {
    key_root_name((seed % 15) as int) + seq![' '] + mode_name(((seed >> 2) % 2) as int)
}

fn key_root(i: u32) -> (r: &'static str)
    requires
        i < KEY_ROOT_COUNT,
    ensures
        r@ == key_root_name(i as int),
{
    match i {
        0 => {
            proof {
                reveal_strlit("C");
            }
            "C"
        },
        1 => {
            proof {
                reveal_strlit("G");
            }
            "G"
        },
        2 => {
            proof {
                reveal_strlit("D");
            }
            "D"
        },
        3 => {
            proof {
                reveal_strlit("A");
            }
            "A"
        },
        4 => {
            proof {
                reveal_strlit("E");
            }
            "E"
        },
        5 => {
            proof {
                reveal_strlit("B");
            }
            "B"
        },
        6 => {
            proof {
                reveal_strlit("F#");
            }
            "F#"
        },
        7 => {
            proof {
                reveal_strlit("C#");
            }
            "C#"
        },
        8 => {
            proof {
                reveal_strlit("F");
            }
            "F"
        },
        9 => {
            proof {
                reveal_strlit("Bb");
            }
            "Bb"
        },
        10 => {
            proof {
                reveal_strlit("Eb");
            }
            "Eb"
        },
        11 => {
            proof {
                reveal_strlit("Ab");
            }
            "Ab"
        },
        12 => {
            proof {
                reveal_strlit("Db");
            }
            "Db"
        },
        13 => {
            proof {
                reveal_strlit("Gb");
            }
            "Gb"
        },
        _ => {
            proof {
                reveal_strlit("Cb");
            }
            "Cb"
        },
    }
}

fn mode(i: u32) -> (r: &'static str)
    requires
        i < 2,
    ensures
        r@ == mode_name(i as int),
{
    if i == 0 {
        proof {
            reveal_strlit("maj");
        }
        "maj"
    } else {
        proof {
            reveal_strlit("min");
        }
        "min"
    }
}

/// The placeholder key label of a seed, such as `F# min`.
pub fn musical_key_label(seed: u32) -> (r: String)
    ensures
        r@ == key_label_of(seed),
{
    let mut label = String::from_str(key_root(seed % KEY_ROOT_COUNT));
    proof {
        reveal_strlit(" ");
    }
    label.append(" ");
    label.append(mode((seed >> 2) % 2));
    label
}

/// Placeholder descriptors. Confidences and the peak are in hundredths
/// (`73` stands for `0.73`); the loudness is in whole LUFS-like units.
pub struct Fallback {
    pub bpm: u32,
    pub bpm_confidence_pct: u32,
    pub musical_key: String,
    pub key_confidence_pct: u32,
    pub lufs: i32,
    pub peak_pct: u32,
}

/// `60 + (seed mod 121)`.
pub open spec fn fallback_bpm(seed: u32) -> int {
    60 + (seed % 121) as int
}

/// `0.5 + ((seed >> 3) mod 50) / 100`, in hundredths.
pub open spec fn fallback_bpm_confidence_pct(seed: u32) -> int {
    50 + ((seed >> 3) % 50) as int
}

/// `0.5 + ((seed >> 5) mod 50) / 100`, in hundredths.
pub open spec fn fallback_key_confidence_pct(seed: u32) -> int {
    50 + ((seed >> 5) % 50) as int
}

/// `-14 - ((seed >> 7) mod 8)`.
pub open spec fn fallback_lufs(seed: u32) -> int {
    -14 - ((seed >> 7) % 8) as int
}

/// `0.5 + ((seed >> 9) mod 50) / 100`, in hundredths.
pub open spec fn fallback_peak_pct(seed: u32) -> int {
    50 + ((seed >> 9) % 50) as int
}

impl Fallback {
    /// Every field is the one that the seed gives.
    pub open spec fn from_seed_spec(&self, seed: u32) -> bool {
        &&& self.bpm == fallback_bpm(seed)
        &&& self.bpm_confidence_pct == fallback_bpm_confidence_pct(seed)
        &&& self.musical_key@ == key_label_of(seed)
        &&& self.key_confidence_pct == fallback_key_confidence_pct(seed)
        &&& self.lufs == fallback_lufs(seed)
        &&& self.peak_pct == fallback_peak_pct(seed)
    }

    /// Every field is the one that the seed of the path gives.
    pub open spec fn for_path_spec(&self, path: Seq<char>) -> bool {
        self.from_seed_spec(seed_of(path))
    }

    /// The placeholder descriptors of a seed.
    pub fn from_seed(seed: u32) -> (r: Fallback)
        ensures
            r.from_seed_spec(seed),
            60 <= r.bpm <= 180,
            50 <= r.peak_pct <= 99,
    {
        Fallback {
            bpm: 60 + seed % 121,
            bpm_confidence_pct: 50 + (seed >> 3) % 50,
            musical_key: musical_key_label(seed),
            key_confidence_pct: 50 + (seed >> 5) % 50,
            lufs: -14 - ((seed >> 7) % 8) as i32,
            peak_pct: 50 + (seed >> 9) % 50,
        }
    }

    /// The placeholder descriptors of an input path.
    pub fn for_path(path: &str) -> (r: Fallback)
        ensures
            r.for_path_spec(path@),
            60 <= r.bpm <= 180,
            50 <= r.peak_pct <= 99,
    {
        Fallback::from_seed(pseudo_from(path))
    }
}

/// Two placeholder records made for the same path agree in every field: the
/// seed, and all that is derived from it, depend on the path alone.
pub proof fn fallback_is_deterministic(path: Seq<char>, a: Fallback, b: Fallback)
    requires
        a.for_path_spec(path),
        b.for_path_spec(path),
    ensures
        a.bpm == b.bpm,
        a.bpm_confidence_pct == b.bpm_confidence_pct,
        a.musical_key@ == b.musical_key@,
        a.key_confidence_pct == b.key_confidence_pct,
        a.lufs == b.lufs,
        a.peak_pct == b.peak_pct,
{
}

/// Every seed gives a tempo in `[60, 180]`, confidences and a peak in
/// `[0.50, 0.99]`, and a loudness in `[-21, -14]`.
pub proof fn fallback_ranges(seed: u32)
    ensures
        60 <= fallback_bpm(seed) <= 180,
        50 <= fallback_bpm_confidence_pct(seed) <= 99,
        50 <= fallback_key_confidence_pct(seed) <= 99,
        -21 <= fallback_lufs(seed) <= -14,
        50 <= fallback_peak_pct(seed) <= 99,
{
}

} // verus!
