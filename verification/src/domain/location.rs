//! Where results are kept: the default directory and the names in it.

use crate::bytes::push_all;
use crate::domain::key::key_of;
use crate::text::{hex, hex_digit, same_text};
use vstd::prelude::*;
use vstd::utf8::encode_utf8;

verus! {

/// The path `rest` below the directory `base`.
pub open spec fn joined(base: Seq<u8>, rest: Seq<char>) -> Seq<u8>
    recommends
        base.len() > 0,
{
    if base.last() == 47 {
        base + encode_utf8(rest)
    } else {
        base.push(47) + encode_utf8(rest)
    }
}

fn join(base: Vec<u8>, rest: &str) -> (path: Vec<u8>)
    requires
        base@.len() > 0,
    ensures
        path@ == joined(base@, rest@),
{
    let mut path = base;
    if path[path.len() - 1] != 47 {
        path.push(47);
    }
    push_all(&mut path, rest.as_bytes());
    path
}

/// The value of a variable that is set to something.
pub open spec fn given(variable: Option<Vec<u8>>) -> Option<Seq<u8>> {
    match variable {
        Some(value) => if value@.len() == 0 {
            None
        } else {
            Some(value@)
        },
        None => None,
    }
}

/// The value of a variable that is set to an absolute path.
pub open spec fn given_absolute(variable: Option<Vec<u8>>) -> Option<Seq<u8>> {
    match variable {
        Some(value) => if value@.len() > 0 && value@[0] == 47 {
            Some(value@)
        } else {
            None
        },
        None => None,
    }
}

/// The cache directory for these values of the two variables.
pub open spec fn default_directory(
    xdg_cache_home: Option<Seq<u8>>,
    home: Option<Seq<u8>>,
) -> Option<Seq<u8>> {
    match (xdg_cache_home, home) {
        (Some(base), _) => Some(joined(base, "cacheexec"@)),
        (None, Some(base)) => Some(joined(base, ".cache/cacheexec"@)),
        (None, None) => None,
    }
}

/// Empty variables count as unset, and so does a relative `xdg_cache_home`.
pub fn default_cache_dir(xdg_cache_home: Option<Vec<u8>>, home: Option<Vec<u8>>) -> (directory:
    Option<Vec<u8>>)
    ensures
        match directory {
            Some(directory) => default_directory(given_absolute(xdg_cache_home), given(home))
                == Some(directory@),
            None => default_directory(given_absolute(xdg_cache_home), given(home)) is None,
        },
{
    if let Some(path) = absolute_only(xdg_cache_home) {
        return Some(join(path, "cacheexec"));
    }
    if let Some(path) = home {
        if path.len() > 0 {
            return Some(join(path, ".cache/cacheexec"));
        }
    }
    None
}

/// Keeps a path only if it is absolute.
pub fn absolute_only(path: Option<Vec<u8>>) -> (absolute: Option<Vec<u8>>)
    ensures
        absolute == match path {
            Some(path) if path@.len() > 0 && path@[0] == 47 => Some(path),
            _ => None,
        },
{
    match path {
        Some(path) => if path.len() > 0 && path[0] == 47 {
            Some(path)
        } else {
            None
        },
        None => None,
    }
}

/// A lowercase hexadecimal digit.
pub open spec fn is_key_digit(c: char) -> bool {
    '0' <= c <= '9' || 'a' <= c <= 'f'
}

/// Whether `text` has the form of a key: the digest in lowercase hexadecimal.
pub open spec fn is_key(text: Seq<char>) -> bool {
    &&& text.len() == 64
    &&& forall|i: int| 0 <= i < text.len() ==> is_key_digit(#[trigger] text[i])
}

/// Whether `name` is an entry of the cache directory that belongs to `key`.
pub open spec fn is_entry(name: Seq<char>, key: Seq<char>) -> bool {
    &&& is_key(key)
    &&& name == key + ".result"@ || name == key + ".active"@ || name == key + ".lock"@
}

/// The names of the entries that belong to `key`: its lock file, the file of
/// its execution and its saved result.
pub fn entry_names(key: &str) -> (names: (String, String, String))
    ensures
        names.0@ == key@ + ".lock"@,
        names.1@ == key@ + ".active"@,
        names.2@ == key@ + ".result"@,
        is_key(key@) ==> is_entry(names.0@, key@) && is_entry(names.1@, key@) && is_entry(
            names.2@,
            key@,
        ),
{
    let mut lock = key.to_owned();
    lock.append(".lock");
    let mut active = key.to_owned();
    active.append(".active");
    let mut result = key.to_owned();
    result.append(".result");
    (lock, active, result)
}

/// An entry of the cache directory belongs to one key: its first 64 characters.
pub proof fn an_entry_belongs_to_one_key(name: Seq<char>, key: Seq<char>)
    requires
        is_entry(name, key),
    ensures
        name.len() >= 64,
        key == name.take(64),
        forall|other: Seq<char>| is_entry(name, other) ==> other == key,
{
    assert(key =~= name.take(64));
    assert forall|other: Seq<char>| is_entry(name, other) implies other == key by {
        assert(other =~= name.take(64));
    }
}

proof fn entries_are_ascii(name: Seq<char>, key: Seq<char>)
    requires
        is_entry(name, key),
    ensures
        vstd::utf8::is_ascii_chars(name),
{
    reveal_strlit(".result");
    reveal_strlit(".active");
    reveal_strlit(".lock");
    assert forall|i: int| 0 <= i < name.len() implies 0 <= #[trigger] name[i] as nat && name[i] as nat
        <= 127 by {
        if i < 64 {
            assert(name[i] == key[i]);
            assert(is_key_digit(key[i]));
        }
    }
}

/// The key of a cache directory entry that cacheexec manages, if `name` is one.
pub fn key_of_entry(name: &str) -> (key: Option<&str>)
    ensures
        match key {
            Some(key) => is_entry(name@, key@),
            None => forall|key: Seq<char>| !is_entry(name@, key),
        },
{
    if !name.is_ascii() {
        proof {
            assert forall|key: Seq<char>| !is_entry(name@, key) by {
                if is_entry(name@, key) {
                    entries_are_ascii(name@, key);
                }
            }
        }
        return None;
    }
    let len = name.unicode_len();
    if len < 64 {
        return None;
    }
    let key = name.substring_ascii(0, 64);
    let extension = name.substring_ascii(64, len);
    assert(name@ =~= key@ + extension@);
    assert(key@ =~= name@.take(64));
    let known = same_text(extension, ".result") || same_text(extension, ".active") || same_text(
        extension,
        ".lock",
    );
    proof {
        assert forall|other: Seq<char>| #[trigger] is_entry(name@, other) implies other == key@
            && known by {
            an_entry_belongs_to_one_key(name@, other);
            assert(extension@ =~= name@.skip(64));
            if name@ == other + ".result"@ {
                assert(name@.skip(64) =~= ".result"@);
            } else if name@ == other + ".active"@ {
                assert(name@.skip(64) =~= ".active"@);
            } else {
                assert(name@.skip(64) =~= ".lock"@);
            }
        }
    }
    if !known {
        return None;
    }
    let mut i: usize = 0;
    while i < 64
        invariant
            name.is_ascii(),
            key.is_ascii(),
            key@.len() == 64,
            i <= 64,
            forall|j: int| 0 <= j < i ==> is_key_digit(#[trigger] key@[j]),
            forall|other: Seq<char>| #[trigger] is_entry(name@, other) ==> other == key@,
        decreases 64 - i,
    {
        let digit = key.get_char(i);
        if !('0' <= digit && digit <= '9' || 'a' <= digit && digit <= 'f') {
            assert(!is_key_digit(key@[i as int]));
            return None;
        }
        i += 1;
    }
    Some(key)
}

/// Every key names three entries of the cache directory, and each of them is
/// found to be its own.
pub proof fn a_key_finds_its_entries(argv: Seq<Seq<u8>>, cwd: Seq<u8>, extra: Option<Seq<u8>>)
    ensures
        is_key(key_of(argv, cwd, extra)),
        is_entry(key_of(argv, cwd, extra) + ".result"@, key_of(argv, cwd, extra)),
        is_entry(key_of(argv, cwd, extra) + ".active"@, key_of(argv, cwd, extra)),
        is_entry(key_of(argv, cwd, extra) + ".lock"@, key_of(argv, cwd, extra)),
{
    let digest = crate::digest::sha256_of(crate::domain::key::preimage(argv, cwd, extra))@;
    let key = key_of(argv, cwd, extra);
    assert(key == hex(digest));
    assert(key.len() == 64);
    assert forall|i: int| 0 <= i < key.len() implies is_key_digit(#[trigger] key[i]) by {
        let byte = digest[i / 2];
        assert(0 <= byte as int / 16 < 16 && 0 <= byte as int % 16 < 16);
        assert(is_key_digit(hex_digit(byte as int / 16)));
        assert(is_key_digit(hex_digit(byte as int % 16)));
    }
}

/// Results are kept below an absolute `XDG_CACHE_HOME` if there is one, whatever
/// the home directory, and otherwise below the home directory; there is no
/// place for them exactly if there is neither.
pub proof fn results_are_kept_below_the_first_usable_directory(
    xdg_cache_home: Option<Vec<u8>>,
    home: Option<Vec<u8>>,
    directory: Option<Vec<u8>>,
)
    requires
        call_ensures(default_cache_dir, (xdg_cache_home, home), directory),
    ensures
        ({
            let usable = xdg_cache_home is Some && xdg_cache_home->0@.len() > 0
                && xdg_cache_home->0@[0] == 47;
            let at_home = home is Some && home->0@.len() > 0;
            let below = |base: Seq<u8>| if base.last() == 47 { base } else { base.push(47) };
            &&& directory is None <==> !usable && !at_home
            &&& usable ==> directory->0@ == below(xdg_cache_home->0@) + encode_utf8("cacheexec"@)
            &&& !usable && at_home ==> directory->0@ == below(home->0@) + encode_utf8(
                ".cache/cacheexec"@,
            )
        }),
{
}

/// A path is kept as it is if it starts with a slash, and dropped otherwise.
pub proof fn only_absolute_paths_are_kept(path: Option<Vec<u8>>, absolute: Option<Vec<u8>>)
    requires
        call_ensures(absolute_only, (path,), absolute),
    ensures
        absolute is Some <==> path is Some && path->0@.len() > 0 && path->0@[0] == 47,
        absolute is Some ==> absolute->0@ == path->0@,
{
}

/// An entry belongs to a key exactly if its name is that key, 64 lowercase
/// hexadecimal digits, followed by one of the three endings.
pub proof fn an_entry_is_a_key_with_an_ending(name: Seq<char>, key: Seq<char>)
    ensures
        is_entry(name, key) <==> {
            &&& key.len() == 64
            &&& forall|i: int|
                0 <= i < 64 ==> '0' <= #[trigger] key[i] <= '9' || 'a' <= key[i] <= 'f'
            &&& name == key + ".result"@ || name == key + ".active"@ || name == key + ".lock"@
        },
{
    if is_key(key) {
        assert forall|i: int| 0 <= i < 64 implies '0' <= #[trigger] key[i] <= '9' || 'a' <= key[i]
            <= 'f' by {
            assert(is_key_digit(key[i]));
        }
    }
    assert(is_key(key) <==> key.len() == 64 && forall|i: int|
        0 <= i < 64 ==> '0' <= #[trigger] key[i] <= '9' || 'a' <= key[i] <= 'f');
}

/// The key that is found for an entry is the one that it is named after.
pub proof fn an_entry_is_found_under_its_key(name: &str, key: Option<&str>)
    requires
        call_ensures(key_of_entry, (name,), key),
    ensures
        key is Some ==> key->0@.len() == 64 && key->0@ == name@.take(64),
        key is Some ==> name@ == key->0@ + ".result"@ || name@ == key->0@ + ".active"@ || name@
            == key->0@ + ".lock"@,
{
    if key is Some {
        an_entry_belongs_to_one_key(name@, key->0@);
    }
}

/// The three entries of a key have different names, and each belongs to that
/// key.
pub proof fn each_entry_of_a_key_is_its_own(key: &str, names: (String, String, String))
    requires
        is_key(key@),
        call_ensures(entry_names, (key,), names),
    ensures
        names.0@ == key@ + ".lock"@,
        names.1@ == key@ + ".active"@,
        names.2@ == key@ + ".result"@,
        names.0@ != names.1@ && names.1@ != names.2@ && names.0@ != names.2@,
        is_entry(names.0@, key@) && is_entry(names.1@, key@) && is_entry(names.2@, key@),
{
    reveal_strlit(".lock");
    reveal_strlit(".active");
    reveal_strlit(".result");
    assert(names.0@.len() == 69);
    assert(names.1@.len() == 71 && names.1@[65] == 'a');
    assert(names.2@.len() == 71 && names.2@[65] == 'r');
}

} // verus!
