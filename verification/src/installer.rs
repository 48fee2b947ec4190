use vstd::prelude::*;

use crate::error::Error;
use crate::paths::{join_path, path_is_absolute, path_is_absolute_str, path_join, plain_file_name};
use crate::target::{all_targets, dll_name_of, Target, TargetType};
use crate::version_info::{
    display_label, first_hachimi_target, info_is_hachimi, lemma_last_value_finds_last_entry,
    names_hachimi, opt_chars, opt_table, product_name_key, product_version_key, table_value,
    TargetVersionInfo,
};

verus! {

/// Steam's application id of Umamusume: Pretty Derby.
pub const UMAMUSUME_STEAM_APP_ID: u32 = 3564400;

/// File name of the game executable in the install directory.
pub open spec fn orig_exe_name() -> Seq<char> {
    "UmamusumePrettyDerby_Jpn.exe"@
}

/// File name under which the unpatched game executable is kept.
pub open spec fn backup_exe_name() -> Seq<char> {
    "UmamusumePrettyDerby_Jpn.old.exe"@
}

/// `file` joined onto the install directory, if one is known.
pub open spec fn in_install_dir(install_dir: Option<String>, file: Seq<char>) -> Option<Seq<char>> {
    match install_dir {
        Some(dir) => Some(path_join(dir@, file)),
        None => None,
    }
}

/// The paths of the game executable and of its backup.
#[derive(Debug)]
pub struct ExePaths {
    pub orig_exe: String,
    pub backup_exe: String,
}

/// Where and what to install.
pub struct Installer {
    /// The game's install directory, if known.
    pub install_dir: Option<String>,
    /// The DLL that Hachimi is installed as; it decides the install method.
    pub target: Target,
    /// A file name or path to install to in place of the target's DLL name,
    /// relative to the install directory unless absolute.
    pub custom_target: Option<String>,
    /// Raw handle of the window that owns the installer's dialogs.
    pub hwnd: Option<isize>,
}

/// The file that is installed: the custom target where one is set, else the
/// DLL name of the target.
pub open spec fn the_file(custom_target: Option<String>, target: Target) -> Seq<char> {
    match custom_target {
        Some(c) => c@,
        None => dll_name_of(target),
    }
}

/// What was read for the `k`-th target, `None` past the end of `reads`.
pub open spec fn read_at(reads: Seq<Option<Option<&Vec<(String, String)>>>>, k: int) -> Option<
    Option<&Vec<(String, String)>>,
> {
    if 0 <= k < reads.len() {
        reads[k]
    } else {
        None
    }
}

/// The product name in what was read of a DLL: absent where the file was not
/// read or held no string table.
pub open spec fn read_name(read: Option<Option<&Vec<(String, String)>>>) -> Option<Seq<char>> {
    match read {
        Some(table) => table_value(opt_table(table), product_name_key()),
        None => None,
    }
}

/// The product version in what was read of a DLL, as for `read_name`.
pub open spec fn read_version(read: Option<Option<&Vec<(String, String)>>>) -> Option<Seq<char>> {
    match read {
        Some(table) => table_value(opt_table(table), product_version_key()),
        None => None,
    }
}

impl Installer {
    /// The file name (or path) that is installed: the custom target if one is
    /// set, else the DLL name of the target.
    pub open spec fn current_target_file(self) -> Seq<char> {
        the_file(self.custom_target, self.target)
    }

    /// Where the DLL of `target` lies.
    pub open spec fn target_path_of(self, target: Target) -> Option<Seq<char>> {
        in_install_dir(self.install_dir, dll_name_of(target))
    }

    /// Where the current target is installed.
    pub open spec fn current_target_path(self) -> Option<Seq<char>> {
        in_install_dir(self.install_dir, self.current_target_file())
    }

    /// Path of the game executable.
    pub open spec fn orig_exe_path(self) -> Option<Seq<char>> {
        in_install_dir(self.install_dir, orig_exe_name())
    }

    /// Path of the backup of the game executable.
    pub open spec fn backup_exe_path(self) -> Option<Seq<char>> {
        in_install_dir(self.install_dir, backup_exe_name())
    }

    /// Whether the DLL of a target, as read, is Hachimi: its path is known, it
    /// was read, and its product name is `Hachimi`.
    pub open spec fn read_is_hachimi(self, read: Option<Option<&Vec<(String, String)>>>) -> bool {
        self.install_dir is Some && read is Some && names_hachimi(read_name(read))
    }

    /// The copy that `pre_install` asks for: from the game executable to its
    /// backup.
    pub open spec fn backup_copy(self) -> Option<(Seq<char>, Seq<char>)> {
        match (self.orig_exe_path(), self.backup_exe_path()) {
            (Some(orig), Some(backup)) => Some((orig, backup)),
            _ => None,
        }
    }

    /// The rename that `restore_after_uninstall` asks for: from the backup to the game
    /// executable.
    pub open spec fn restore_rename(self) -> Option<(Seq<char>, Seq<char>)> {
        match (self.backup_exe_path(), self.orig_exe_path()) {
            (Some(backup), Some(orig)) => Some((backup, orig)),
            _ => None,
        }
    }

    /// An installer for `target`, with the custom target given. The install
    /// directory is `install_dir`; only where that is `None` is
    /// `detect_install_dir` called, and the directory is what it returns.
    pub fn custom<F: FnOnce() -> Option<String>>(
        install_dir: Option<String>,
        target: Target,
        custom_target: Option<String>,
        detect_install_dir: F,
    ) -> (r: Installer)
        requires
            install_dir is None ==> call_requires(detect_install_dir, ()),
        ensures
            install_dir is Some ==> r.install_dir == install_dir,
            install_dir is None ==> call_ensures(detect_install_dir, (), r.install_dir),
            r.target == target,
            r.custom_target == custom_target,
            r.hwnd is None,
    {
        let install_dir = match install_dir {
            Some(dir) => Some(dir),
            None => detect_install_dir(),
        };
        Installer { install_dir, target, custom_target, hwnd: None }
    }

    /// The default installer: the default target, no custom target, and the
    /// install directory that `detect_install_dir` finds.
    pub fn with_detected_install_dir<F: FnOnce() -> Option<String>>(detect_install_dir: F) -> (r:
        Installer)
        requires
            call_requires(detect_install_dir, ()),
        ensures
            call_ensures(detect_install_dir, (), r.install_dir),
            r.target == Target::CriManaVpx,
            r.custom_target is None,
            r.hwnd is None,
    {
        let install_dir = detect_install_dir();
        Installer { install_dir, target: Target::default(), custom_target: None, hwnd: None }
    }

    fn get_target_path_internal(&self, target: Target, file: &str) -> (r: Option<String>)
        ensures
            opt_chars(r) == in_install_dir(self.install_dir, file@),
            self.install_dir is Some && path_is_absolute(file@) ==> opt_chars(r) == Some(file@),
    {
        match TargetType::from(target) {
            TargetType::Direct => match &self.install_dir {
                Some(dir) => Some(join_path(dir.as_str(), file)),
                None => None,
            },
        }
    }

    /// Where the DLL of `target` lies: its name joined onto the install
    /// directory; `None` without an install directory.
    pub fn get_target_path(&self, target: Target) -> (r: Option<String>)
        ensures
            opt_chars(r) == self.target_path_of(target),
    {
        self.get_target_path_internal(target, target.dll_name())
    }

    /// Where the current target is installed: the custom target, else the
    /// target's DLL name, joined onto the install directory; `None` without an
    /// install directory. An absolute custom target is the path itself.
    pub fn get_current_target_path(&self) -> (r: Option<String>)
        ensures
            opt_chars(r) == self.current_target_path(),
            r is Some <==> self.install_dir is Some,
            self.custom_target is None ==> opt_chars(r) == self.target_path_of(self.target),
            self.custom_target matches Some(c) ==> (self.install_dir is Some && path_is_absolute(c@)
                ==> opt_chars(r) == Some(c@)),
    {
        match &self.custom_target {
            Some(custom_target) => self.get_target_path_internal(self.target, custom_target.as_str()),
            None => self.get_target_path_internal(self.target, self.target.dll_name()),
        }
    }

    /// Whether the current target is installed: its path is known and
    /// `is_file` (which asks the file system whether a path is a regular file)
    /// holds of it. `is_file` is called only when the path is known.
    pub fn is_current_target_installed<F: FnOnce(&str) -> bool>(&self, is_file: F) -> (r: bool)
        requires
            forall|path: &str| call_requires(is_file, (path,)),
        ensures
            self.install_dir is None ==> !r,
            self.install_dir is Some ==> exists|path: &str|
                Some(path@) == self.current_target_path() && call_ensures(is_file, (path,), r),
    {
        match self.get_current_target_path() {
            Some(path) => is_file(path.as_str()),
            None => false,
        }
    }

    /// The product name and version of the DLL of `target`. `read` is what was
    /// read from `get_target_path(target)`: `None` when the file could not be
    /// opened, `Some(None)` when it holds no readable version resource, and
    /// otherwise the entries, in order, of the language-neutral Unicode string
    /// table of its version resource. `None` without an install directory or
    /// without a file; the name and version are the values under
    /// `ProductName` and `ProductVersion`, absent where there is no table.
    pub fn get_target_version_info(
        &self,
        target: Target,
        read: Option<Option<&Vec<(String, String)>>>,
    ) -> (r: Option<TargetVersionInfo>)
        ensures
            r is Some <==> (self.install_dir is Some && read is Some),
            r matches Some(info) ==> opt_chars(info.name) == read_name(read) && opt_chars(
                info.version,
            ) == read_version(read),
    {
        match self.get_target_path(target) {
            None => None,
            Some(_) => match read {
                None => None,
                Some(table) => Some(TargetVersionInfo::from_string_table(table)),
            },
        }
    }

    /// The label of the DLL of `target` (see `get_target_version_info` for
    /// `read`): its display label where the file was read, else its bare file
    /// name.
    pub fn get_target_display_label(
        &self,
        target: Target,
        read: Option<Option<&Vec<(String, String)>>>,
    ) -> (r: String)
        ensures
            r@ == if self.install_dir is Some && read is Some {
                display_label(target, read_name(read))
            } else {
                dll_name_of(target)
            },
    {
        let info = self.get_target_version_info(target, read);
        target_display_label(target, &info)
    }

    /// The first target, in the order of `Target::values()`, whose installed
    /// DLL names Hachimi in its version information. `reads[k]` is what was
    /// read for the `k`-th target, as in `get_target_version_info` (`None`
    /// where `reads` ends).
    pub fn get_hachimi_installed_target(
        &self,
        reads: &[Option<Option<&Vec<(String, String)>>>],
    ) -> (r: Option<Target>)
        ensures
            r is None <==> forall|k: int|
                0 <= k < all_targets().len() ==> !self.read_is_hachimi(#[trigger] read_at(reads@, k)),
            r matches Some(t) ==> exists|k: int|
                0 <= k < all_targets().len() && all_targets()[k] == t && self.read_is_hachimi(
                    #[trigger] read_at(reads@, k),
                ) && forall|j: int| 0 <= j < k ==> !self.read_is_hachimi(#[trigger] read_at(reads@, j)),
    {
        let targets = Target::values();
        let mut candidates: Vec<(Target, Option<TargetVersionInfo>)> = Vec::new();
        let mut k: usize = 0;
        while k < targets.len()
            invariant
                k <= targets@.len(),
                targets@ == all_targets(),
                candidates@.len() == k,
                forall|j: int|
                    0 <= j < k ==> (#[trigger] candidates@[j]).0 == all_targets()[j] && (info_is_hachimi(
                        candidates@[j].1,
                    ) <==> self.read_is_hachimi(read_at(reads@, j))),
            decreases targets@.len() - k,
        {
            let target = targets[k];
            let info = if k < reads.len() {
                self.get_target_version_info(target, reads[k])
            } else {
                self.get_target_version_info(target, None)
            };
            candidates.push((target, info));
            k = k + 1;
        }
        let r = first_hachimi_target(&candidates);
        proof {
            assert forall|k: int| 0 <= k < all_targets().len() implies (info_is_hachimi(
                #[trigger] candidates@[k].1,
            ) <==> self.read_is_hachimi(read_at(reads@, k))) by {
                assert(candidates@[k].0 == all_targets()[k]);
            }
            if let Some(t) = r {
                let i = choose|i: int|
                    0 <= i < candidates@.len() && candidates@[i].0 == t && info_is_hachimi(
                        #[trigger] candidates@[i].1,
                    ) && forall|j: int| 0 <= j < i ==> !info_is_hachimi(#[trigger] candidates@[j].1);
                assert(self.read_is_hachimi(read_at(reads@, i)));
                assert forall|j: int| 0 <= j < i implies !self.read_is_hachimi(
                    #[trigger] read_at(reads@, j),
                ) by {
                    assert(!info_is_hachimi(candidates@[j].1));
                }
            } else {
                assert forall|k: int| 0 <= k < all_targets().len() implies !self.read_is_hachimi(
                    #[trigger] read_at(reads@, k),
                ) by {
                    assert(!info_is_hachimi(candidates@[k].1));
                }
            }
        }
        r
    }

    /// Checks before installing: the game executable is to be copied to its
    /// backup (any existing backup is removed first). Fails with
    /// `NoInstallDir` without an install directory.
    pub fn pre_install(&self) -> (r: Result<ExePaths, Error>)
        ensures
            r is Err <==> self.install_dir is None,
            r matches Err(e) ==> e is NoInstallDir,
            r matches Ok(p) ==> self.backup_copy() == Some((p.orig_exe@, p.backup_exe@)),
    {
        match TargetType::from(self.target) {
            TargetType::Direct => {
                let orig_exe = match self.get_orig_exe_path() {
                    Some(p) => p,
                    None => return Err(Error::NoInstallDir),
                };
                let backup_exe = match self.get_backup_exe_path() {
                    Some(p) => p,
                    None => return Err(Error::NoInstallDir),
                };
                Ok(ExePaths { orig_exe, backup_exe })
            },
        }
    }

    /// Where the Hachimi DLL is written (its parent directories are created
    /// first). Fails with `NoInstallDir` without an install directory.
    pub fn install(&self) -> (r: Result<String, Error>)
        ensures
            r is Err <==> self.install_dir is None,
            r matches Err(e) ==> e is NoInstallDir,
            r matches Ok(p) ==> Some(p@) == self.current_target_path(),
    {
        match self.get_current_target_path() {
            Some(path) => Ok(path),
            None => Err(Error::NoInstallDir),
        }
    }

    /// The game executable that is replaced by its patched version after
    /// installing (see `patched_exe_bytes`). Fails with `NoInstallDir` without
    /// an install directory.
    pub fn post_install(&self) -> (r: Result<String, Error>)
        ensures
            r is Err <==> self.install_dir is None,
            r matches Err(e) ==> e is NoInstallDir,
            r matches Ok(p) ==> Some(p@) == self.orig_exe_path(),
    {
        match TargetType::from(self.target) {
            TargetType::Direct => match self.get_orig_exe_path() {
                Some(path) => Ok(path),
                None => Err(Error::NoInstallDir),
            },
        }
    }

    /// The installed DLL that uninstalling removes first. Fails with
    /// `NoInstallDir` without an install directory, before anything is
    /// removed.
    pub fn uninstall(&self) -> (r: Result<String, Error>)
        ensures
            r is Err <==> self.install_dir is None,
            r matches Err(e) ==> e is NoInstallDir,
            r matches Ok(p) ==> Some(p@) == self.current_target_path(),
    {
        match self.get_current_target_path() {
            Some(path) => Ok(path),
            None => Err(Error::NoInstallDir),
        }
    }

    /// What uninstalling does once the installed DLL is removed, where
    /// `backup_exists` tells whether the backup of the game executable exists
    /// at that point: the backup is renamed over the game executable, or,
    /// without a backup, uninstalling fails with `FailedToRestore`. Fails with
    /// `NoInstallDir` without an install directory.
    pub fn restore_after_uninstall(&self, backup_exists: bool) -> (r: Result<ExePaths, Error>)
        ensures
            self.install_dir is None ==> (r matches Err(e) && e is NoInstallDir),
            self.install_dir is Some && !backup_exists ==> (r matches Err(e) && e is FailedToRestore),
            r is Ok <==> (self.install_dir is Some && backup_exists),
            r matches Ok(p) ==> self.restore_rename() == Some((p.backup_exe@, p.orig_exe@)),
    {
        match TargetType::from(self.target) {
            TargetType::Direct => {
                let backup_exe = match self.get_backup_exe_path() {
                    Some(p) => p,
                    None => return Err(Error::NoInstallDir),
                };
                let orig_exe = match self.get_orig_exe_path() {
                    Some(p) => p,
                    None => return Err(Error::NoInstallDir),
                };
                if backup_exists {
                    Ok(ExePaths { orig_exe, backup_exe })
                } else {
                    Err(Error::FailedToRestore)
                }
            },
        }
    }

    /// Whether the custom target is an absolute path, which the current target
    /// path then is, whatever the install directory.
    pub fn custom_target_is_absolute(&self) -> (r: bool)
        ensures
            r == (self.custom_target matches Some(c) && path_is_absolute(c@)),
    {
        match &self.custom_target {
            Some(c) => path_is_absolute_str(c.as_str()),
            None => false,
        }
    }

    /// Path of the backup of the game executable, `UmamusumePrettyDerby_Jpn.old.exe`
    /// in the install directory.
    pub fn get_backup_exe_path(&self) -> (r: Option<String>)
        ensures
            opt_chars(r) == self.backup_exe_path(),
            self.install_dir is Some ==> opt_chars(r) != self.orig_exe_path(),
    {
        match &self.install_dir {
            Some(dir) => {
                let path = join_path(dir.as_str(), "UmamusumePrettyDerby_Jpn.old.exe");
                proof {
                    lemma_exe_names_are_plain();
                }
                Some(path)
            },
            None => None,
        }
    }

    /// Path of the game executable, `UmamusumePrettyDerby_Jpn.exe` in the
    /// install directory.
    pub fn get_orig_exe_path(&self) -> (r: Option<String>)
        ensures
            opt_chars(r) == self.orig_exe_path(),
    {
        match &self.install_dir {
            Some(dir) => Some(join_path(dir.as_str(), "UmamusumePrettyDerby_Jpn.exe")),
            None => None,
        }
    }
}

/// The names of the game executable and of its backup are distinct plain
/// file names.
pub proof fn lemma_exe_names_are_plain()
    ensures
        plain_file_name(orig_exe_name()),
        plain_file_name(backup_exe_name()),
        orig_exe_name() != backup_exe_name(),
{
    reveal_strlit("UmamusumePrettyDerby_Jpn.exe");
    reveal_strlit("UmamusumePrettyDerby_Jpn.old.exe");
    assert(orig_exe_name().len() != backup_exe_name().len());
}

/// Uninstalling undoes the backup made before installing: the rename that
/// `restore_after_uninstall` asks for is the copy that `pre_install` asks for, reversed, and
/// the executable that `post_install` patches is the one that was backed up.
pub proof fn lemma_restore_reverses_backup(installer: Installer)
    ensures
        installer.backup_copy() is Some <==> installer.restore_rename() is Some,
        installer.backup_copy() matches Some(copy) ==> installer.restore_rename() == Some(
            (copy.1, copy.0),
        ),
        installer.backup_copy() matches Some(copy) ==> installer.orig_exe_path() == Some(copy.0),
{
}

/// Every path names its file inside the install directory: the target's DLL
/// name, the custom target whatever it is (relative with directories, or
/// absolute), and the two executable names are each joined onto the install
/// directory; without an install directory there is no path.
pub proof fn lemma_paths_join_onto_install_dir(installer: Installer, target: Target)
    ensures
        installer.install_dir matches Some(d) ==> installer.target_path_of(Target::CriManaVpx) == Some(
            path_join(d@, "cri_mana_vpx.dll"@),
        ),
        installer.install_dir matches Some(d) ==> (installer.custom_target matches Some(c)
            ==> installer.current_target_path() == Some(path_join(d@, c@))),
        installer.install_dir matches Some(d) ==> (installer.custom_target is None
            ==> installer.current_target_path() == Some(path_join(d@, "cri_mana_vpx.dll"@))),
        installer.install_dir matches Some(d) ==> installer.orig_exe_path() == Some(
            path_join(d@, "UmamusumePrettyDerby_Jpn.exe"@),
        ),
        installer.install_dir matches Some(d) ==> installer.backup_exe_path() == Some(
            path_join(d@, "UmamusumePrettyDerby_Jpn.old.exe"@),
        ),
        installer.install_dir is None ==> installer.current_target_path() is None
            && installer.target_path_of(target) is None && installer.orig_exe_path() is None
            && installer.backup_exe_path() is None,
{
}

/// The product name and version read from a DLL are the values of the last
/// `ProductName` and `ProductVersion` entries of its string table, wherever
/// they stand; both are absent where the file or its table was not read.
pub proof fn lemma_read_name_is_product_name_entry(read: Option<Option<&Vec<(String, String)>>>)
    ensures
        read matches Some(Some(t)) ==> forall|i: int|
            0 <= i < t@.len() && (#[trigger] t@[i]).0@ == "ProductName"@ && (forall|j: int|
                i < j < t@.len() ==> (#[trigger] t@[j]).0@ != "ProductName"@) ==> read_name(read)
                == Some(t@[i].1@),
        read matches Some(Some(t)) ==> forall|i: int|
            0 <= i < t@.len() && (#[trigger] t@[i]).0@ == "ProductVersion"@ && (forall|j: int|
                i < j < t@.len() ==> (#[trigger] t@[j]).0@ != "ProductVersion"@) ==> read_version(read)
                == Some(t@[i].1@),
        read matches Some(Some(t)) ==> ((forall|i: int|
            0 <= i < t@.len() ==> (#[trigger] t@[i]).0@ != "ProductName"@) ==> read_name(read) is None),
        !(read matches Some(Some(_))) ==> read_name(read) is None && read_version(read) is None,
{
    if let Some(Some(t)) = read {
        lemma_last_value_finds_last_entry(t@, "ProductName"@);
        lemma_last_value_finds_last_entry(t@, "ProductVersion"@);
    }
}

/// A target is reported as Hachimi exactly when its install directory is
/// known, its DLL was read with a string table, and the table's (last)
/// `ProductName` entry is `Hachimi`, wherever that entry stands in the table.
pub proof fn lemma_hachimi_by_product_name(
    installer: Installer,
    read: Option<Option<&Vec<(String, String)>>>,
)
    ensures
        installer.read_is_hachimi(read) <==> (installer.install_dir is Some && (read matches Some(
            Some(t),
        ) && exists|i: int|
            0 <= i < t@.len() && (#[trigger] t@[i]).0@ == "ProductName"@ && t@[i].1@ == "Hachimi"@
                && forall|j: int| i < j < t@.len() ==> (#[trigger] t@[j]).0@ != "ProductName"@)),
{
    if let Some(Some(t)) = read {
        lemma_last_value_finds_last_entry(t@, "ProductName"@);
        if installer.read_is_hachimi(read) {
            assert(read_name(read) is Some);
        }
    }
}

/// The label of a target given its version information: the display label
/// where there is version information, else the bare DLL name.
pub fn target_display_label(target: Target, info: &Option<TargetVersionInfo>) -> (r: String)
    ensures
        r@ == match info {
            Some(i) => display_label(target, opt_chars(i.name)),
            None => dll_name_of(target),
        },
{
    match info {
        Some(info) => info.get_display_label(target),
        None => String::from_str(target.dll_name()),
    }
}

} // verus!
