//! The settings the pass runs with, their defaults, and the repair of a
//! settings section: unknown keys out, missing keys back in.

use crate::naming::same_text;
use vstd::prelude::*;
use vstd::string::*;

verus! {

/// Credentials for the remote catalog.
pub struct FactorioConfig {
    pub username: String,
    pub token: String,
}

/// Feature toggles.
pub struct ModManagerConfig {
    pub autoupdate_mods: bool,
    pub autoupdate_server: bool,
    pub autostart_when_finished: bool,
}

/// All settings.
pub struct Config {
    pub factorio: FactorioConfig,
    pub mod_manager: ModManagerConfig,
}

impl Default for Config {
    /// Placeholder credentials, every toggle on.
    fn default() -> (r: Config)
        ensures
            r.factorio.username@ == "my-username"@,
            r.factorio.token@ == "my-token"@,
            r.mod_manager.autoupdate_mods,
            r.mod_manager.autoupdate_server,
            r.mod_manager.autostart_when_finished,
    {
        Config {
            factorio: FactorioConfig {
                username: String::from_str("my-username"),
                token: String::from_str("my-token"),
            },
            mod_manager: ModManagerConfig {
                autoupdate_mods: true,
                autoupdate_server: true,
                autostart_when_finished: true,
            },
        }
    }
}

/// The sections of the settings file, in order.
pub open spec fn section_names() -> Seq<Seq<char>> {
    seq!["factorio"@, "mod-manager"@]
}

/// The keys a section may hold, in order; none for an unknown section.
pub open spec fn allowed_keys(section: Seq<char>) -> Seq<Seq<char>> {
    if section == "factorio"@ {
        seq!["username"@, "token"@]
    } else if section == "mod-manager"@ {
        seq!["autoupdate-mods"@, "autoupdate-server"@, "autostart-when-finished"@]
    } else {
        Seq::empty()
    }
}

pub open spec fn texts(v: Seq<String>) -> Seq<Seq<char>> {
    v.map_values(|k: String| k@)
}

/// The names of the settings sections.
pub fn sections() -> (r: Vec<String>)
    ensures
        texts(r@) == section_names(),
{
    let mut r: Vec<String> = Vec::new();
    r.push(String::from_str("factorio"));
    r.push(String::from_str("mod-manager"));
    assert(texts(r@) =~= section_names());
    r
}

/// The keys that `section` may hold.
pub fn section_keys(section: &str) -> (r: Vec<String>)
    ensures
        texts(r@) == allowed_keys(section@),
{
    let mut r: Vec<String> = Vec::new();
    if same_text(section, "factorio") {
        r.push(String::from_str("username"));
        r.push(String::from_str("token"));
    } else if same_text(section, "mod-manager") {
        r.push(String::from_str("autoupdate-mods"));
        r.push(String::from_str("autoupdate-server"));
        r.push(String::from_str("autostart-when-finished"));
    }
    assert(texts(r@) =~= allowed_keys(section@));
    r
}

fn contains_text(v: &Vec<String>, s: &str) -> (r: bool)
    ensures
        r == texts(v@).contains(s@),
{
    let mut i: usize = 0;
    while i < v.len()
        invariant
            i <= v.len(),
            forall|j: int| 0 <= j < i ==> v@[j]@ != s@,
        decreases v.len() - i,
    {
        if same_text(v[i].as_str(), s) {
            assert(texts(v@)[i as int] == s@);
            return true;
        }
        i = i + 1;
    }
    proof {
        if texts(v@).contains(s@) {
            let j = choose|j: int| 0 <= j < texts(v@).len() && texts(v@)[j] == s@;
            assert(v@[j]@ == s@);
        }
    }
    false
}

/// How to repair one section: the keys to drop and the keys to add back with
/// their default values.
pub struct SectionRepair {
    pub remove: Vec<String>,
    pub insert: Vec<String>,
}

/// The repair of `section` when it holds the keys `present`: every key it may
/// not hold is removed, in the order found, and every allowed key it lacks is
/// added, in the section's order.
pub fn plan_section_repair(section: &str, present: &Vec<String>) -> (r: SectionRepair)
    ensures
        texts(r.remove@) == texts(present@).filter(
            |k: Seq<char>| !allowed_keys(section@).contains(k),
        ),
        texts(r.insert@) == allowed_keys(section@).filter(
            |k: Seq<char>| !texts(present@).contains(k),
        ),
{
    let allowed = section_keys(section);
    proof {
        reveal(Seq::filter);
    }
    let ghost not_allowed = |k: Seq<char>| !allowed_keys(section@).contains(k);
    let ghost absent = |k: Seq<char>| !texts(present@).contains(k);
    let mut remove: Vec<String> = Vec::new();
    let mut i: usize = 0;
    while i < present.len()
        invariant
            i <= present.len(),
            texts(allowed@) == allowed_keys(section@),
            not_allowed == (|k: Seq<char>| !allowed_keys(section@).contains(k)),
            texts(remove@) == texts(present@).take(i as int).filter(not_allowed),
        decreases present.len() - i,
    {
        let ghost before = remove@;
        let ghost s = texts(present@).take(i + 1);
        assert(s.drop_last() =~= texts(present@).take(i as int));
        assert(s.last() == present@[i as int]@);
        reveal(Seq::filter);
        assert(s.filter(not_allowed) == if not_allowed(s.last()) {
            s.drop_last().filter(not_allowed).push(s.last())
        } else {
            s.drop_last().filter(not_allowed)
        });
        if !contains_text(&allowed, present[i].as_str()) {
            remove.push(present[i].clone());
            assert(texts(remove@) =~= texts(before).push(present@[i as int]@));
        } else {
            assert(texts(remove@) =~= texts(before));
        }
        i = i + 1;
    }
    assert(texts(present@).take(present@.len() as int) =~= texts(present@));
    let mut insert: Vec<String> = Vec::new();
    let mut j: usize = 0;
    while j < allowed.len()
        invariant
            j <= allowed.len(),
            texts(allowed@) == allowed_keys(section@),
            absent == (|k: Seq<char>| !texts(present@).contains(k)),
            texts(insert@) == texts(allowed@).take(j as int).filter(absent),
        decreases allowed.len() - j,
    {
        let ghost before = insert@;
        let ghost s = texts(allowed@).take(j + 1);
        assert(s.drop_last() =~= texts(allowed@).take(j as int));
        assert(s.last() == allowed@[j as int]@);
        reveal(Seq::filter);
        assert(s.filter(absent) == if absent(s.last()) {
            s.drop_last().filter(absent).push(s.last())
        } else {
            s.drop_last().filter(absent)
        });
        if !contains_text(present, allowed[j].as_str()) {
            insert.push(allowed[j].clone());
            assert(texts(insert@) =~= texts(before).push(allowed@[j as int]@));
        } else {
            assert(texts(insert@) =~= texts(before));
        }
        j = j + 1;
    }
    assert(texts(allowed@).take(allowed@.len() as int) =~= texts(allowed@));
    SectionRepair { remove, insert }
}

} // verus!
