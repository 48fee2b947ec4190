use vstd::prelude::*;

use crate::target::{dll_name_of, Target};

verus! {

/// The product name and version read from the version resource of an
/// installed DLL.
#[derive(Debug)]
pub struct TargetVersionInfo {
    pub name: Option<String>,
    pub version: Option<String>,
}

/// The characters of an optional string.
pub open spec fn opt_chars(s: Option<String>) -> Option<Seq<char>> {
    match s {
        Some(s) => Some(s@),
        None => None,
    }
}

/// The product name that marks a DLL as Hachimi.
pub open spec fn hachimi_name() -> Seq<char> {
    "Hachimi"@
}

/// The product name shown for a DLL whose version resource has none.
pub open spec fn unknown_name() -> Seq<char> {
    "Unknown"@
}

/// `* <dll name> (<product name>)`, with `Unknown` for a missing name.
pub open spec fn display_label(target: Target, name: Option<Seq<char>>) -> Seq<char> {
    "* "@ + dll_name_of(target) + " ("@ + match name {
        Some(n) => n,
        None => unknown_name(),
    } + ")"@
}

/// Whether a product name is Hachimi's.
pub open spec fn names_hachimi(name: Option<Seq<char>>) -> bool {
    name == Some(hachimi_name())
}

/// Whether version information is present and names Hachimi.
pub open spec fn info_is_hachimi(info: Option<TargetVersionInfo>) -> bool {
    match info {
        Some(i) => names_hachimi(opt_chars(i.name)),
        None => false,
    }
}

impl Default for TargetVersionInfo {
    fn default() -> (r: TargetVersionInfo)
        ensures
            r.name is None,
            r.version is None,
    {
        TargetVersionInfo { name: None, version: None }
    }
}

impl TargetVersionInfo {
    /// The label under which an installed target is listed:
    /// `* <dll name> (<product name>)`, the name being `Unknown` when absent.
    pub fn get_display_label(&self, target: Target) -> (r: String)
        ensures
            r@ == display_label(target, opt_chars(self.name)),
    {
        let mut label = String::from_str("* ");
        label.append(target.dll_name());
        label.append(" (");
        match &self.name {
            Some(name) => label.append(name.as_str()),
            None => label.append("Unknown"),
        }
        label.append(")");
        label
    }

    /// Whether the product name is exactly `Hachimi`.
    pub fn is_hachimi(&self) -> (r: bool)
        ensures
            r == names_hachimi(opt_chars(self.name)),
    {
        match &self.name {
            Some(name) => {
                let hachimi = String::from_str("Hachimi");
                name.eq(&hachimi)
            },
            None => false,
        }
    }

    /// The product name and version held in a string table of a version
    /// resource: the values under `ProductName` and `ProductVersion` (the last
    /// one where a key occurs more than once); both absent where no table was
    /// read.
    pub fn from_string_table(table: Option<&Vec<(String, String)>>) -> (r: TargetVersionInfo)
        ensures
            opt_chars(r.name) == table_value(opt_table(table), product_name_key()),
            opt_chars(r.version) == table_value(opt_table(table), product_version_key()),
    {
        match table {
            Some(table) => TargetVersionInfo {
                name: string_table_value(table, "ProductName"),
                version: string_table_value(table, "ProductVersion"),
            },
            None => TargetVersionInfo::default(),
        }
    }
}

/// The key of the product name in a version resource's string table.
pub open spec fn product_name_key() -> Seq<char> {
    "ProductName"@
}

/// The key of the product version in a version resource's string table.
pub open spec fn product_version_key() -> Seq<char> {
    "ProductVersion"@
}

/// The entries of an optional string table.
pub open spec fn opt_table(table: Option<&Vec<(String, String)>>) -> Option<Seq<(String, String)>> {
    match table {
        Some(t) => Some(t@),
        None => None,
    }
}

/// The value of the last entry with `key` in the string table `entries`.
pub open spec fn last_value(entries: Seq<(String, String)>, key: Seq<char>) -> Option<Seq<char>>
    decreases entries.len(),
{
    if entries.len() == 0 {
        None
    } else if entries.last().0@ == key {
        Some(entries.last().1@)
    } else {
        last_value(entries.drop_last(), key)
    }
}

/// The value under `key` in a string table, absent where there is no table.
pub open spec fn table_value(table: Option<Seq<(String, String)>>, key: Seq<char>) -> Option<
    Seq<char>,
> {
    match table {
        Some(entries) => last_value(entries, key),
        None => None,
    }
}

/// The value of the last entry of `table` whose key is `key`.
pub fn string_table_value(table: &Vec<(String, String)>, key: &str) -> (r: Option<String>)
    ensures
        opt_chars(r) == last_value(table@, key@),
{
    let key = String::from_str(key);
    let mut found: Option<String> = None;
    let mut i: usize = 0;
    while i < table.len()
        invariant
            i <= table@.len(),
            opt_chars(found) == last_value(table@.take(i as int), key@),
        decreases table@.len() - i,
    {
        assert(table@.take(i + 1).drop_last() =~= table@.take(i as int));
        if table[i].0.eq(&key) {
            found = Some(table[i].1.clone());
        }
        i = i + 1;
    }
    assert(table@.take(table@.len() as int) =~= table@);
    found
}

/// The first candidate whose version information names Hachimi, in the order
/// given; `None` when no candidate does.
pub fn first_hachimi_target(candidates: &Vec<(Target, Option<TargetVersionInfo>)>) -> (r: Option<
    Target,
>)
    ensures
        r is None <==> forall|i: int|
            0 <= i < candidates@.len() ==> !info_is_hachimi(#[trigger] candidates@[i].1),
        r matches Some(t) ==> exists|i: int|
            0 <= i < candidates@.len() && candidates@[i].0 == t && info_is_hachimi(
                #[trigger] candidates@[i].1,
            ) && forall|j: int| 0 <= j < i ==> !info_is_hachimi(#[trigger] candidates@[j].1),
{
    let mut k: usize = 0;
    while k < candidates.len()
        invariant
            k <= candidates@.len(),
            forall|j: int| 0 <= j < k ==> !info_is_hachimi(#[trigger] candidates@[j].1),
        decreases candidates@.len() - k,
    {
        let hit = match &candidates[k].1 {
            Some(info) => info.is_hachimi(),
            None => false,
        };
        if hit {
            return Some(candidates[k].0);
        }
        k = k + 1;
    }
    None
}

/// Entry `i` of `entries` has `key`, and no later entry has it.
pub open spec fn is_last_entry_with(entries: Seq<(String, String)>, key: Seq<char>, i: int) -> bool {
    &&& 0 <= i < entries.len()
    &&& entries[i].0@ == key
    &&& forall|j: int| i < j < entries.len() ==> (#[trigger] entries[j]).0@ != key
}

proof fn lemma_last_value_at_last_entry(entries: Seq<(String, String)>, key: Seq<char>, i: int)
    requires
        is_last_entry_with(entries, key, i),
    ensures
        last_value(entries, key) == Some(entries[i].1@),
    decreases entries.len(),
{
    let n = entries.len() - 1;
    if i < n {
        let rest = entries.drop_last();
        assert(entries[n].0@ != key);
        assert(rest[i] == entries[i]);
        assert forall|j: int| i < j < rest.len() implies (#[trigger] rest[j]).0@ != key by {
            assert(rest[j] == entries[j]);
        }
        lemma_last_value_at_last_entry(rest, key, i);
    }
}

proof fn lemma_last_value_without_key(entries: Seq<(String, String)>, key: Seq<char>)
    requires
        forall|i: int| 0 <= i < entries.len() ==> (#[trigger] entries[i]).0@ != key,
    ensures
        last_value(entries, key) is None,
    decreases entries.len(),
{
    if entries.len() > 0 {
        let rest = entries.drop_last();
        assert(entries[entries.len() - 1].0@ != key);
        assert forall|i: int| 0 <= i < rest.len() implies (#[trigger] rest[i]).0@ != key by {
            assert(rest[i] == entries[i]);
        }
        lemma_last_value_without_key(rest, key);
    }
}

proof fn lemma_last_value_from_entry(entries: Seq<(String, String)>, key: Seq<char>)
    requires
        last_value(entries, key) is Some,
    ensures
        exists|i: int| #[trigger]
            is_last_entry_with(entries, key, i) && last_value(entries, key) == Some(entries[i].1@),
    decreases entries.len(),
{
    let n = entries.len() - 1;
    if entries[n].0@ == key {
        assert(is_last_entry_with(entries, key, n));
    } else {
        let rest = entries.drop_last();
        lemma_last_value_from_entry(rest, key);
        let i = choose|i: int| #[trigger]
            is_last_entry_with(rest, key, i) && last_value(rest, key) == Some(rest[i].1@);
        assert(entries[i] == rest[i]);
        assert forall|j: int| i < j < entries.len() implies (#[trigger] entries[j]).0@ != key by {
            if j < n {
                assert(rest[j] == entries[j]);
            }
        }
        assert(is_last_entry_with(entries, key, i));
    }
}

/// A lookup in a string table finds the last entry with the key, wherever it
/// stands in the table: where entry `i` has the key and no later entry has
/// it, the value is entry `i`'s; where no entry has the key, there is no
/// value; and a value found is that of such an entry.
pub proof fn lemma_last_value_finds_last_entry(entries: Seq<(String, String)>, key: Seq<char>)
    ensures
        forall|i: int|
            0 <= i < entries.len() && (#[trigger] entries[i]).0@ == key && (forall|j: int|
                i < j < entries.len() ==> (#[trigger] entries[j]).0@ != key) ==> last_value(
                entries,
                key,
            ) == Some(entries[i].1@),
        (forall|i: int| 0 <= i < entries.len() ==> (#[trigger] entries[i]).0@ != key) ==> last_value(
            entries,
            key,
        ) is None,
        last_value(entries, key) is Some ==> exists|i: int|
            0 <= i < entries.len() && (#[trigger] entries[i]).0@ == key && last_value(entries, key)
                == Some(entries[i].1@) && forall|j: int|
                i < j < entries.len() ==> (#[trigger] entries[j]).0@ != key,
{
    assert forall|i: int|
        0 <= i < entries.len() && (#[trigger] entries[i]).0@ == key && (forall|j: int|
            i < j < entries.len() ==> (#[trigger] entries[j]).0@ != key) implies last_value(
        entries,
        key,
    ) == Some(entries[i].1@) by {
        lemma_last_value_at_last_entry(entries, key, i);
    }
    if forall|i: int| 0 <= i < entries.len() ==> (#[trigger] entries[i]).0@ != key {
        lemma_last_value_without_key(entries, key);
    }
    if last_value(entries, key) is Some {
        lemma_last_value_from_entry(entries, key);
        let i = choose|i: int| #[trigger]
            is_last_entry_with(entries, key, i) && last_value(entries, key) == Some(entries[i].1@);
        assert(entries[i].0@ == key);
    }
}

/// The label of a present product name holds the name whole:
/// `* <dll name> (<name>)`, for a name of any length, so different names give
/// different labels.
pub proof fn lemma_display_label_holds_whole_name(target: Target, name: Seq<char>, other: Seq<char>)
    ensures
        display_label(target, Some(name)).len() == dll_name_of(target).len() + name.len() + 5,
        display_label(target, Some(name)).take(dll_name_of(target).len() + 4int) == "* "@ + dll_name_of(
            target,
        ) + " ("@,
        display_label(target, Some(name)).subrange(
            dll_name_of(target).len() + 4int,
            dll_name_of(target).len() + 4int + name.len(),
        ) == name,
        display_label(target, Some(name)).last() == ')',
        display_label(target, Some(name)) == display_label(target, Some(other)) ==> name == other,
{
    reveal_strlit("* ");
    reveal_strlit(" (");
    reveal_strlit(")");
    let d = dll_name_of(target);
    let l1 = display_label(target, Some(name));
    let l2 = display_label(target, Some(other));
    let start: int = d.len() + 4int;
    assert(l1.subrange(start, start + name.len()) =~= name);
    assert(l1.take(start) =~= "* "@ + d + " ("@);
    if l1 == l2 {
        assert(l2.subrange(start, start + other.len()) =~= other);
    }
}

} // verus!
