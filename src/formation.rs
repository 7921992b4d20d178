use vstd::prelude::*;

verus! {

/// How many enemies in a row share one formation template.
pub const FORMATION_MEMBERS_MAX: u32 = 2;

/// Hands out formations so that consecutive enemies fly in groups: a template
/// is reused until `FORMATION_MEMBERS_MAX` enemies have taken it, then a fresh
/// one is drawn.
pub struct FormationMaker<T> {
    current_template: Option<T>,
    current_members: u32,
}

impl<T> FormationMaker<T> {
    /// The template that the next enemies may share, if any.
    pub closed spec fn template(&self) -> Option<T> {
        self.current_template
    }

    /// How many enemies have taken the current template.
    pub closed spec fn members(&self) -> nat {
        self.current_members as nat
    }

    #[verifier::type_invariant]
    spec fn inv(&self) -> bool {
        &&& self.current_members <= FORMATION_MEMBERS_MAX
        &&& (self.current_template is None <==> self.current_members == 0)
    }
}

impl<T: Copy> FormationMaker<T> {
    /// The group of the current template still has room.
    pub open spec fn reuses_template(&self) -> bool {
        self.template() is Some && self.members() < FORMATION_MEMBERS_MAX
    }

    /// `next` and `r` are a state and a result that `make` may produce from
    /// `self` with `fresh` as the source of new templates.
    pub open spec fn make_outcome<F: FnOnce() -> T>(self, fresh: F, next: Self, r: T) -> bool {
        if self.reuses_template() {
            &&& r == self.template()->Some_0
            &&& next.template() == self.template()
            &&& next.members() == self.members() + 1
        } else {
            &&& fresh.ensures((), r)
            &&& next.template() == Some(r)
            &&& next.members() == 1
        }
    }

    /// A maker with no template yet.
    pub fn new() -> (m: Self)
        ensures
            m.template() is None,
            m.members() == 0,
    {
        FormationMaker { current_template: None, current_members: 0 }
    }

    /// The formation of the next enemy: the current template while its group
    /// has room, else a new template from `fresh`, which starts a new group.
    pub fn make<F: FnOnce() -> T>(&mut self, fresh: F) -> (r: T)
        requires
            fresh.requires(()),
        ensures
            old(self).make_outcome(fresh, *final(self), r),
            final(self).members() <= FORMATION_MEMBERS_MAX,
    {
        proof {
            use_type_invariant(&*self);
        }
        match self.current_template {
            Some(template) if self.current_members < FORMATION_MEMBERS_MAX => {
                self.current_members = self.current_members + 1;
                template
            },
            _ => {
                let formation = fresh();
                *self = FormationMaker { current_template: Some(formation), current_members: 1 };
                formation
            },
        }
    }
}

impl<T: Copy> Default for FormationMaker<T> {
    fn default() -> (m: Self)
        ensures
            m.template() is None,
            m.members() == 0,
    {
        FormationMaker::new()
    }
}

} // verus!
