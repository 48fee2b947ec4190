use vstd::prelude::*;

verus! {

/// The game DLL that Hachimi is installed as.
#[derive(Clone, Copy, Debug, PartialEq, Eq, Structural)]
pub enum Target {
    CriManaVpx,
}

/// How a target is installed: `Direct` replaces the DLL in the install
/// directory and patches the game executable.
#[derive(Clone, Copy, Debug, PartialEq, Eq, Structural)]
pub enum TargetType {
    Direct,
}

/// File name of the DLL for a target.
pub open spec fn dll_name_of(target: Target) -> Seq<char> {
    match target {
        Target::CriManaVpx => "cri_mana_vpx.dll"@,
    }
}

/// The install method of a target.
pub open spec fn target_type_of(target: Target) -> TargetType {
    match target {
        Target::CriManaVpx => TargetType::Direct,
    }
}

/// Every target, in the order they are probed.
pub open spec fn all_targets() -> Seq<Target> {
    seq![Target::CriManaVpx]
}

impl Target {
    /// The file name of the DLL that this target replaces.
    pub fn dll_name(&self) -> (r: &'static str)
        ensures
            r@ == dll_name_of(*self),
    {
        match self {
            Target::CriManaVpx => "cri_mana_vpx.dll",
        }
    }

    /// The target whose DLL is named `name` exactly, if any.
    pub fn from_dll_name(name: &str) -> (r: Option<Target>)
        ensures
            r matches Some(t) ==> dll_name_of(t) == name@,
            r is None ==> forall|t: Target| dll_name_of(t) != name@,
    {
        let name = String::from_str(name);
        let dll = String::from_str(Target::CriManaVpx.dll_name());
        if name.eq(&dll) {
            Some(Target::CriManaVpx)
        } else {
            None
        }
    }

    /// Every target, in the order they are probed.
    pub fn values() -> (r: Vec<Target>)
        ensures
            r@ == all_targets(),
    {
        vec![Target::CriManaVpx]
    }
}

impl Default for Target {
    fn default() -> (r: Target)
        ensures
            r == Target::CriManaVpx,
    {
        Target::CriManaVpx
    }
}

impl From<Target> for TargetType {
    fn from(value: Target) -> (r: TargetType) {
        match value {
            Target::CriManaVpx => TargetType::Direct,
        }
    }
}

impl vstd::std_specs::convert::FromSpecImpl<Target> for TargetType {
    open spec fn obeys_from_spec() -> bool {
        true
    }

    open spec fn from_spec(v: Target) -> TargetType {
        target_type_of(v)
    }
}

/// `Target::values()` lists every target, each once.
pub proof fn lemma_values_list_every_target(target: Target)
    ensures
        all_targets().contains(target),
        all_targets().no_duplicates(),
{
    assert(all_targets()[0] == target);
}

/// Every target is installed directly.
pub proof fn lemma_every_target_is_direct(target: Target)
    ensures
        target_type_of(target) == TargetType::Direct,
{
}

} // verus!
