use vstd::prelude::*;

verus! {

/// Directory that catalog paths are first tried against.
pub const RESOURCES_PATH: &'static str = "./resources/";

/// One record of the catalog store.
pub struct SoundConfig {
    pub name: String,
    pub file: String,
    pub icon: String,
}

/// The catalog store: its records in order.
pub struct Config {
    pub sound: Vec<SoundConfig>,
}

/// The path a catalog `file` stands for: under the resources directory when
/// that file exists, else the value as written.
pub open spec fn resolved(file: Seq<char>, relative_exists: bool) -> Seq<char> {
    if relative_exists {
        RESOURCES_PATH@ + file
    } else {
        file
    }
}

/// The record is the one an entry named `name` at `path` was loaded from:
/// same name, and `path` is its file, resolved either way.
pub open spec fn refers_to(r: SoundConfig, name: Seq<char>, path: Seq<char>) -> bool {
    r.name@ == name && (r.file@ == path || RESOURCES_PATH@ + r.file@ == path)
}

pub open spec fn kept_records(s: Seq<SoundConfig>, name: Seq<char>, path: Seq<char>) -> Seq<SoundConfig> {
    s.filter(|r: SoundConfig| !refers_to(r, name, path))
}

/// The file under the resources directory.
pub fn relative_path(file: &str) -> (r: String)
    ensures
        r@ == RESOURCES_PATH@ + file@,
{
    String::from_str(RESOURCES_PATH).concat(file)
}

/// Resolves a catalog `file`, given whether it exists under the resources
/// directory.
pub fn resolve_path(file: &str, relative_exists: bool) -> (r: String)
    ensures
        r@ == resolved(file@, relative_exists),
{
    if relative_exists {
        relative_path(file)
    } else {
        String::from_str(file)
    }
}

impl SoundConfig {
    pub fn new(name: String, file: String, icon: String) -> (r: SoundConfig)
        ensures
            r.name == name,
            r.file == file,
            r.icon == icon,
    {
        SoundConfig { name, file, icon }
    }

    pub fn duplicate(&self) -> (r: SoundConfig)
        ensures
            r == *self,
    {
        SoundConfig { name: self.name.clone(), file: self.file.clone(), icon: self.icon.clone() }
    }

    pub fn refers_to(&self, name: &String, path: &String) -> (r: bool)
        ensures
            r == refers_to(*self, name@, path@),
    {
        if self.name != *name {
            return false;
        }
        if self.file == *path {
            return true;
        }
        let rel = relative_path(self.file.as_str());
        rel == *path
    }
}

impl Config {
    pub fn new() -> (r: Config)
        ensures
            r.sound@.len() == 0,
    {
        Config { sound: Vec::new() }
    }

    /// Appends a record.
    pub fn add_sound(&mut self, record: SoundConfig)
        ensures
            final(self).sound@ == old(self).sound@.push(record),
    {
        self.sound.push(record);
    }

    /// Drops every record that an entry named `name` at `path` refers to,
    /// keeping the others in order.
    pub fn remove_sound(&mut self, name: &String, path: &String)
        ensures
            final(self).sound@ == kept_records(old(self).sound@, name@, path@),
    {
        let mut old_records: Vec<SoundConfig> = Vec::new();
        core::mem::swap(&mut old_records, &mut self.sound);
        let ghost s = old_records@;
        let n = old_records.len();
        let mut i: usize = 0;
        while i < n
            invariant
                0 <= i <= n,
                n == s.len(),
                old_records@ == s,
                self.sound@ == kept_records(s.take(i as int), name@, path@),
            decreases n - i,
        {
            let keep = !old_records[i].refers_to(name, path);
            proof {
                assert(s.take(i + 1).drop_last() =~= s.take(i as int));
                reveal(Seq::filter);
            }
            if keep {
                self.sound.push(old_records[i].duplicate());
            }
            i = i + 1;
        }
        assert(s.take(n as int) =~= s);
    }
}

} // verus!
