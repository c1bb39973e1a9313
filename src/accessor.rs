use vstd::prelude::*;

verus! {

/// Which accessors a member exposes.
#[derive(Clone, Copy, Debug, PartialEq, Eq, Structural)]
pub enum GetterKind {
    Neither,
    Getter,
    Setter,
    Both,
}

impl GetterKind {
    pub open spec fn has_get(self) -> bool {
        self is Getter || self is Both
    }

    pub open spec fn has_set(self) -> bool {
        self is Setter || self is Both
    }

    /// The mode with exactly the given getter and setter facts.
    pub open spec fn from_facts(getter: bool, setter: bool) -> GetterKind {
        if getter && setter {
            GetterKind::Both
        } else if getter {
            GetterKind::Getter
        } else if setter {
            GetterKind::Setter
        } else {
            GetterKind::Neither
        }
    }

    pub fn new(getter: bool, setter: bool) -> (r: GetterKind)
        ensures
            r == GetterKind::from_facts(getter, setter),
            r.has_get() == getter,
            r.has_set() == setter,
    {
        if !(getter || setter) {
            GetterKind::Neither
        } else if getter && setter {
            GetterKind::Both
        } else if getter {
            GetterKind::Getter
        } else {
            GetterKind::Setter
        }
    }

    /// Union of the getter and setter facts of both modes.
    pub fn merge(self, other: GetterKind) -> (r: GetterKind)
        ensures
            r.has_get() == (self.has_get() || other.has_get()),
            r.has_set() == (self.has_set() || other.has_set()),
            r == GetterKind::from_facts(
                self.has_get() || other.has_get(),
                self.has_set() || other.has_set(),
            ),
    {
        let is_getter = self.is_getter() || other.is_getter();
        let is_setter = self.is_setter() || other.is_setter();
        GetterKind::new(is_getter, is_setter)
    }

    pub fn is_getter(self) -> (r: bool)
        ensures
            r == self.has_get(),
    {
        matches!(self, GetterKind::Both | GetterKind::Getter)
    }

    pub fn is_setter(self) -> (r: bool)
        ensures
            r == self.has_set(),
    {
        matches!(self, GetterKind::Both | GetterKind::Setter)
    }

    pub fn is_none(self) -> (r: bool)
        ensures
            r == (self is Neither),
    {
        self == GetterKind::Neither
    }
}

/// The accessor mode a member ends up with, given the type-wide default and
/// the member's own setting.
pub open spec fn effective_mode(global: GetterKind, local: GetterKind) -> GetterKind {
    if global is Neither && local is Neither {
        GetterKind::Both
    } else if global is Neither {
        local
    } else {
        GetterKind::from_facts(
            global.has_get() || local.has_get(),
            global.has_set() || local.has_set(),
        )
    }
}

/// Combines the type-wide accessor default with a member's override: with
/// neither set the member gets both accessors; otherwise the override can
/// only add accessors to the default.
pub fn apply_getter_rules(global: GetterKind, local: GetterKind) -> (r: GetterKind)
    ensures
        r == effective_mode(global, local),
{
    if global.is_none() && local.is_none() {
        GetterKind::Both
    } else if global.is_none() {
        local
    } else {
        global.merge(local)
    }
}

/// Whether a member is marked final: a structural member never is; any
/// other member is when the type-wide default or its own flag asks for it.
pub open spec fn is_final(global: bool, local: bool, structural: bool) -> bool {
    !structural && (global || local)
}

pub fn resolve_finality(global: bool, local: bool, structural: bool) -> (r: bool)
    ensures
        r == is_final(global, local, structural),
        structural ==> !r,
{
    !structural && (global || local)
}

/// A member's override never takes away an accessor that the type-wide
/// default grants, and an unannotated member of an unannotated type has both.
pub proof fn lemma_mode_only_adds(global: GetterKind, local: GetterKind)
    ensures
        global.has_get() ==> effective_mode(global, local).has_get(),
        global.has_set() ==> effective_mode(global, local).has_set(),
        local.has_get() ==> effective_mode(global, local).has_get(),
        local.has_set() ==> effective_mode(global, local).has_set(),
        (global is Neither && local is Neither) ==> effective_mode(global, local) is Both,
{
}

} // verus!
