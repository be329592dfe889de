use crate::error::Defect;
use vstd::prelude::*;

verus! {

/// How an archive is unpacked.
#[derive(Debug, Clone, Copy, PartialEq, Eq, Structural)]
pub enum UnpackMethod {
    /// Stream the archive through `gunzip -c` into the executable's file.
    Gunzip,
    /// Write the archive out and extract it with PowerShell's zip support.
    PowerShellZip,
    /// Write the archive out and extract it with `unzip`.
    Unzip,
}

/// `p` is the position of the last dot of a file name, not its first
/// character.
pub open spec fn last_dot(name: Seq<char>, p: int) -> bool {
    &&& 0 < p < name.len()
    &&& name[p] == '.'
    &&& forall|k: int| p < k < name.len() ==> name[k] != '.'
}

/// The extension of a file name: what follows its last dot, where that dot
/// does not begin the name; the name `..` has none.
pub open spec fn extension_of(name: Seq<char>) -> Option<Seq<char>> {
    if name == ".."@ {
        None
    } else if exists|p: int| last_dot(name, p) {
        let p = choose|p: int| last_dot(name, p);
        Some(name.subrange(p + 1, name.len() as int))
    } else {
        None
    }
}

pub open spec fn method_for(ext: Option<Seq<char>>, windows: bool) -> Option<UnpackMethod> {
    match ext {
        Some(e) => if e == "gz"@ {
            Some(UnpackMethod::Gunzip)
        } else if e == "zip"@ {
            if windows {
                Some(UnpackMethod::PowerShellZip)
            } else {
                Some(UnpackMethod::Unzip)
            }
        } else {
            None
        },
        None => None,
    }
}

/// Whether two texts are equal.
pub fn same_text(a: &str, b: &str) -> (r: bool)
    ensures
        r == (a@ == b@),
{
    let n = a.unicode_len();
    if n != b.unicode_len() {
        return false;
    }
    let mut i: usize = 0;
    while i < n
        invariant
            n == a@.len(),
            n == b@.len(),
            i <= n,
            forall|k: int| 0 <= k < i ==> a@[k] == b@[k],
        decreases n - i,
    {
        if a.get_char(i) != b.get_char(i) {
            return false;
        }
        i = i + 1;
    }
    assert(a@ =~= b@);
    true
}

/// The extension of a file name, as `Path::extension` gives it for a name
/// of one component.
pub fn file_extension(name: &str) -> (r: Option<String>)
    ensures
        r is Some <==> extension_of(name@) is Some,
        r matches Some(e) ==> extension_of(name@) == Some(e@),
{
    if same_text(name, "..") {
        return None;
    }
    let n = name.unicode_len();
    let mut i: usize = n;
    while i > 1
        invariant
            n == name@.len(),
            name@ != ".."@,
            i <= n,
            forall|k: int| i <= k < n ==> name@[k] != '.',
        decreases i,
    {
        if name.get_char(i - 1) == '.' {
            let p = i - 1;
            assert(last_dot(name@, p as int));
            proof {
                let q = choose|q: int| last_dot(name@, q);
                assert(q == p as int) by {
                    if q < p {
                        assert(name@[p as int] != '.');
                    } else if q > p {
                        assert(name@[q] != '.');
                    }
                }
            }
            return Some(String::from_str(name.substring_char(i, n)));
        }
        i = i - 1;
    }
    assert(!exists|p: int| last_dot(name@, p));
    None
}

/// How to unpack the archive `archive_name` on this platform family;
/// `None` for an extension that cannot be unpacked.
pub fn unpack_method(archive_name: &str, windows: bool) -> (r: Option<UnpackMethod>)
    ensures
        r == method_for(extension_of(archive_name@), windows),
{
    match file_extension(archive_name) {
        Some(ext) => {
            if same_text(ext.as_str(), "gz") {
                Some(UnpackMethod::Gunzip)
            } else if same_text(ext.as_str(), "zip") {
                if windows {
                    Some(UnpackMethod::PowerShellZip)
                } else {
                    Some(UnpackMethod::Unzip)
                }
            } else {
                None
            }
        },
        None => None,
    }
}

/// How to unpack the archive, or the defect of an archive that cannot be.
pub fn plan_unpack(archive_name: &str, windows: bool) -> (r: Result<UnpackMethod, Defect>)
    ensures
        match method_for(extension_of(archive_name@), windows) {
            Some(m) => r == Ok::<UnpackMethod, Defect>(m),
            None => r == Err::<UnpackMethod, Defect>(Defect::UnsupportedArchive),
        },
{
    match unpack_method(archive_name, windows) {
        Some(m) => Ok(m),
        None => Err(Defect::UnsupportedArchive),
    }
}

/// File name of the executable inside the staging directory.
pub open spec fn exe_name_text(windows: bool) -> Seq<char> {
    if windows {
        "deno.exe"@
    } else {
        "deno"@
    }
}

/// File name of the executable inside the staging directory.
pub fn exe_file_name(windows: bool) -> (r: String)
    ensures
        r@ == exe_name_text(windows),
{
    if windows {
        String::from_str("deno.exe")
    } else {
        String::from_str("deno")
    }
}

/// The fresh staging directory must not hold the executable yet.
pub fn check_staging(exe_exists: bool) -> (r: Result<(), Defect>)
    ensures
        r == (if exe_exists {
            Err::<(), Defect>(Defect::StagingNotEmpty)
        } else {
            Ok(())
        }),
{
    if exe_exists {
        Err(Defect::StagingNotEmpty)
    } else {
        Ok(())
    }
}

/// After unpacking: the tool succeeded and the executable is in place.
pub fn check_unpacked(status_ok: bool, exe_exists: bool) -> (r: Result<(), Defect>)
    ensures
        r == (if !status_ok {
            Err::<(), Defect>(Defect::UnpackFailed)
        } else if !exe_exists {
            Err(Defect::ExecutableMissing)
        } else {
            Ok(())
        }),
{
    if !status_ok {
        Err(Defect::UnpackFailed)
    } else if !exe_exists {
        Err(Defect::ExecutableMissing)
    } else {
        Ok(())
    }
}

} // verus!
