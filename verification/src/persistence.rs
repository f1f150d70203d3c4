//! Where the application keeps its files: the configuration and data
//! directories and the well-known paths inside them, and the slug used for
//! preset file names.

use vstd::prelude::*;

verus! {

use vstd::string::StrSliceExecFns;
use crate::strutil::{lower_of, path_join, to_lowercase};
use crate::sys;

/// The configuration and data directories of the application.
#[derive(Debug, Clone, PartialEq)]
pub struct AppPaths {
    config_dir: String,
    data_dir: String,
}

impl AppPaths {
    pub closed spec fn spec_config_dir(&self) -> Seq<char> {
        self.config_dir@
    }

    pub closed spec fn spec_data_dir(&self) -> Seq<char> {
        self.data_dir@
    }

    /// Paths rooted at the two given directories.
    pub fn from_paths(config_dir: String, data_dir: String) -> (r: Self)
        ensures
            r.spec_config_dir() == config_dir@,
            r.spec_data_dir() == data_dir@,
    {
        AppPaths { config_dir, data_dir }
    }

    /// The configuration directory.
    pub fn config_dir(&self) -> (r: &str)
        ensures
            r@ == self.spec_config_dir(),
    {
        self.config_dir.as_str()
    }

    /// The data directory.
    pub fn data_dir(&self) -> (r: &str)
        ensures
            r@ == self.spec_data_dir(),
    {
        self.data_dir.as_str()
    }

    /// The settings file, inside the configuration directory.
    pub fn settings_path(&self) -> (r: String)
        ensures
            r@ == self.spec_config_dir() + "/"@ + "settings.toml"@,
    {
        path_join(self.config_dir.as_str(), "settings.toml")
    }

    /// The subscriptions file, inside the data directory.
    pub fn subscriptions_path(&self) -> (r: String)
        ensures
            r@ == self.spec_data_dir() + "/"@ + "subscriptions.json"@,
    {
        path_join(self.data_dir.as_str(), "subscriptions.json")
    }

    /// The routing-rules file, inside the data directory.
    pub fn routing_rules_path(&self) -> (r: String)
        ensures
            r@ == self.spec_data_dir() + "/"@ + "routing_rules.json"@,
    {
        path_join(self.data_dir.as_str(), "routing_rules.json")
    }

    /// The geodata directory, inside the data directory.
    pub fn geodata_dir(&self) -> (r: String)
        ensures
            r@ == self.spec_data_dir() + "/"@ + "geodata"@,
    {
        path_join(self.data_dir.as_str(), "geodata")
    }

    /// The presets directory, inside the data directory.
    pub fn presets_dir(&self) -> (r: String)
        ensures
            r@ == self.spec_data_dir() + "/"@ + "presets"@,
    {
        path_join(self.data_dir.as_str(), "presets")
    }

    /// Creates the two directories, privately readable, when missing.
    pub fn ensure_dirs(&self) -> (r: Result<(), i32>) {
        crate::pid::make_dirs_all(self.config_dir.as_str(), 0o700)?;
        crate::pid::make_dirs_all(self.data_dir.as_str(), 0o700)?;
        Ok(())
    }
}

pub open spec fn spec_ascii_alnum(c: char) -> bool {
    ('a' <= c && c <= 'z') || ('A' <= c && c <= 'Z') || ('0' <= c && c <= '9')
}

/// The slug built from the characters of `s` from position `i` on, appended
/// to `acc`: lowercase-folded characters, with every run of anything but
/// ASCII letters and digits collapsed into one dash between groups.
pub open spec fn spec_slug_from(s: Seq<char>, i: int, acc: Seq<char>, pending: bool) -> Seq<char>
    decreases s.len() - i,
{
    if i < 0 || i >= s.len() {
        acc
    } else {
        let c = s[i];
        if spec_ascii_alnum(c) {
            let acc2 = if pending && acc.len() > 0 {
                acc.push('-').push(c)
            } else {
                acc.push(c)
            };
            spec_slug_from(s, i + 1, acc2, false)
        } else {
            spec_slug_from(s, i + 1, acc, true)
        }
    }
}

/// The file-name slug of a preset name.
pub open spec fn spec_slugify(s: Seq<char>) -> Seq<char> {
    spec_slug_from(lower_of(s), 0, Seq::<char>::empty(), false)
}

fn ascii_alnum(c: char) -> (r: bool)
    ensures
        r == spec_ascii_alnum(c),
{
    let v = c as u32;
    (97 <= v && v <= 122) || (65 <= v && v <= 90) || (48 <= v && v <= 57)
}

/// Relies on String::from_utf8: bytes below 128 decode to the same
/// characters.
#[verifier::external_body]
fn string_from_ascii(bytes: Vec<u8>) -> (r: String)
    requires
        forall|i: int| 0 <= i < bytes@.len() ==> bytes@[i] < 128,
    ensures
        r@ == Seq::new(bytes@.len(), |i: int| bytes@[i] as char),
{
    String::from_utf8(bytes).unwrap_or_default()
}

/// Lowercases a preset name and keeps only ASCII letters and digits, with
/// runs of anything else collapsed into single dashes between groups.
pub fn slugify(name: &str) -> (r: String)
    ensures
        r@ == spec_slugify(name@),
{
    let lowered = to_lowercase(name);
    let low = lowered.as_str();
    let n = low.unicode_len();
    let mut out: Vec<u8> = Vec::new();
    let mut pending = false;
    let mut i: usize = 0;
    let ghost goal = spec_slugify(name@);
    proof {
        assert(Seq::new(out@.len(), |j: int| out@[j] as char) =~= Seq::<char>::empty());
    }
    while i < n
        invariant
            0 <= i <= n,
            n == low@.len(),
            low@ == lower_of(name@),
            forall|j: int| 0 <= j < out@.len() ==> out@[j] < 128,
            spec_slug_from(
                low@,
                i as int,
                Seq::new(out@.len(), |j: int| out@[j] as char),
                pending,
            ) == goal,
        decreases n - i,
    {
        let c = low.get_char(i);
        let ghost acc = Seq::new(out@.len(), |j: int| out@[j] as char);
        if ascii_alnum(c) {
            if pending && out.len() > 0 {
                out.push(45);
                proof {
                    assert(Seq::new(out@.len(), |j: int| out@[j] as char) =~= acc.push('-'));
                }
            }
            let ghost acc2 = Seq::new(out@.len(), |j: int| out@[j] as char);
            out.push((c as u32) as u8);
            proof {
                assert((c as u32) < 128);
                assert((((c as u32) as u8) as char) == c);
                assert(Seq::new(out@.len(), |j: int| out@[j] as char) =~= acc2.push(c));
            }
            pending = false;
        } else {
            pending = true;
        }
        i += 1;
    }
    proof {
        assert(Seq::new(out@.len(), |j: int| out@[j] as char) == goal);
    }
    string_from_ascii(out)
}

} // verus!
