//! The single active hot-key registration and its replacement.
use vstd::prelude::*;
use vstd::string::*;
use crate::keys::{
    display_of, format_shortcut_display, key_of, parse_key, parse_modifiers, parsed_modifiers,
    texts, KeyCode, ModifierSet,
};

verus! {

/// A hot-key as the platform registers it.
#[derive(Clone, Copy, Debug, PartialEq, Eq, Structural)]
pub struct Trigger {
    pub modifiers: Option<ModifierSet>,
    pub code: KeyCode,
}

/// A binding as the user wrote it: modifier names and a key name.
pub type BindingView = (Seq<Seq<char>>, Seq<char>);

/// The trigger that a binding stands for, when its key name is known.
pub open spec fn trigger_of(b: BindingView) -> Option<Trigger> {
    match key_of(b.1) {
        Some(code) => Some(Trigger { modifiers: parsed_modifiers(b.0), code }),
        None => None,
    }
}

/// The binding used while none is active.
pub open spec fn default_binding() -> BindingView {
    (seq!["Alt"@], "M"@)
}

#[derive(Debug)]
pub enum BindingError {
    /// The key name is outside the key table.
    InvalidKey(String),
    /// The platform refused the trigger; the reason is its message.
    RegistrationFailed(String),
}

/// What a rebind asks of the platform: release the old trigger, if any, then
/// claim the new one.
pub struct Rebind {
    pub release: Option<Trigger>,
    pub claim: Trigger,
    modifiers: Vec<String>,
    key: String,
}

pub struct RebindView {
    pub release: Option<Trigger>,
    pub claim: Trigger,
    pub binding: BindingView,
}

impl View for Rebind {
    type V = RebindView;

    closed spec fn view(&self) -> RebindView {
        RebindView { release: self.release, claim: self.claim, binding: (texts(self.modifiers@), self.key@) }
    }
}

/// The rebind that a request for binding `b` makes while `active` is active;
/// `None` when the key name of `b` is unknown.
pub open spec fn plan_of(active: Option<BindingView>, b: BindingView) -> Option<RebindView> {
    match trigger_of(b) {
        Some(t) => Some(RebindView {
            release: match active {
                Some(a) => trigger_of(a),
                None => None,
            },
            claim: t,
            binding: b,
        }),
        None => None,
    }
}

/// The active binding once the platform has answered a rebind: the new binding
/// when it accepted the trigger, none when it refused it.
pub open spec fn active_after(plan: RebindView, accepted: bool) -> Option<BindingView> {
    if accepted {
        Some(plan.binding)
    } else {
        None
    }
}

/// The triggers that the platform holds after a rebind, from those it held
/// before, when it honours the release and answers the claim with `accepted`.
pub open spec fn registrations_after(regs: Set<Trigger>, plan: RebindView, accepted: bool) -> Set<
    Trigger,
> {
    let released = match plan.release {
        Some(t) => regs.remove(t),
        None => regs,
    };
    if accepted {
        released.insert(plan.claim)
    } else {
        released
    }
}

/// The triggers registered for an active binding: its own, or none.
pub open spec fn registrations_of(active: Option<BindingView>) -> Set<Trigger> {
    match active {
        Some(b) => match trigger_of(b) {
            Some(t) => set![t],
            None => Set::empty(),
        },
        None => Set::empty(),
    }
}

/// Owns the one active binding and the trigger registered for it.
pub struct ShortcutRegistry {
    active: Option<(Vec<String>, String, Trigger)>,
}

fn clone_names(v: &Vec<String>) -> (r: Vec<String>)
    ensures
        texts(r@) == texts(v@),
{
    let mut r: Vec<String> = Vec::new();
    let mut i: usize = 0;
    while i < v.len()
        invariant
            i <= v@.len(),
            r@.len() == i,
            forall|j: int| 0 <= j < i ==> r@[j]@ == v@[j]@,
        decreases v@.len() - i,
    {
        r.push(v[i].clone());
        i += 1;
    }
    assert(texts(r@) =~= texts(v@));
    r
}

impl ShortcutRegistry {
    /// The active binding, if any.
    pub closed spec fn view(&self) -> Option<BindingView> {
        match self.active {
            Some((m, k, _)) => Some((texts(m@), k@)),
            None => None,
        }
    }

    /// The recorded trigger is the one that the active binding stands for.
    pub closed spec fn wf(&self) -> bool {
        match self.active {
            Some((m, k, t)) => trigger_of((texts(m@), k@)) == Some(t),
            None => true,
        }
    }

    /// A registry with no active binding.
    pub fn new() -> (r: Self)
        ensures
            r.wf(),
            r@ is None,
    {
        ShortcutRegistry { active: None }
    }

    /// The trigger registered for the active binding, if any.
    pub fn active_trigger(&self) -> (r: Option<Trigger>)
        requires
            self.wf(),
        ensures
            r == (match self@ {
                Some(b) => trigger_of(b),
                None => None,
            }),
    {
        match &self.active {
            Some((_, _, t)) => Some(*t),
            None => None,
        }
    }

    /// Starts replacing the active binding with `modifiers` + `key`. Fails with
    /// `InvalidKey` when the key name is unknown; the registry is not touched
    /// either way. The platform is to release `release`, ignoring a failure, and
    /// then claim `claim`, and `finish_rebind` takes its answer.
    pub fn begin_rebind(&self, modifiers: Vec<String>, key: String) -> (r: Result<
        Rebind,
        BindingError,
    >)
        requires
            self.wf(),
        ensures
            match r {
                Ok(rb) => plan_of(self@, (texts(modifiers@), key@)) == Some(rb@),
                Err(BindingError::InvalidKey(k)) => key_of(key@) is None && k@ == key@,
                Err(_) => false,
            },
    {
        let code = match parse_key(key.as_str()) {
            Some(c) => c,
            None => {
                return Err(BindingError::InvalidKey(key));
            },
        };
        let claim = Trigger { modifiers: parse_modifiers(modifiers.as_slice()), code };
        let release = self.active_trigger();
        Ok(Rebind { release, claim, modifiers, key })
    }

    /// Records the platform's answer to a rebind. When it accepted the claim
    /// the new binding becomes active and its display text is returned; when it
    /// refused, no binding is left active and `RegistrationFailed` carries the
    /// reason.
    pub fn finish_rebind(&mut self, rebind: Rebind, outcome: Result<(), String>) -> (r: Result<
        String,
        BindingError,
    >)
        requires
            old(self).wf(),
            trigger_of(rebind@.binding) == Some(rebind@.claim),
        ensures
            final(self).wf(),
            final(self)@ == active_after(rebind@, outcome is Ok),
            match outcome {
                Ok(_) => r is Ok && r->Ok_0@ == display_of(rebind@.binding.0, rebind@.binding.1),
                Err(reason) => match r {
                    Err(BindingError::RegistrationFailed(s)) => s@ == reason@,
                    _ => false,
                },
            },
    {
        match outcome {
            Ok(_) => {
                let display = format_shortcut_display(rebind.modifiers.as_slice(), rebind.key.as_str());
                self.active = Some((rebind.modifiers, rebind.key, rebind.claim));
                Ok(display)
            },
            Err(reason) => {
                self.active = None;
                Err(BindingError::RegistrationFailed(reason))
            },
        }
    }

    /// The active binding as modifier names and key name, or the default
    /// binding `Alt` + `M` while none is active.
    pub fn get_shortcut(&self) -> (r: (Vec<String>, String))
        ensures
            (texts(r.0@), r.1@) == (match self@ {
                Some(b) => b,
                None => default_binding(),
            }),
    {
        match &self.active {
            Some((m, k, _)) => (clone_names(m), k.clone()),
            None => {
                let mut names: Vec<String> = Vec::new();
                names.push(String::from_str("Alt"));
                let r = (names, String::from_str("M"));
                assert(texts(r.0@) =~= seq!["Alt"@]);
                r
            },
        }
    }
}

/// Two accepted rebinds in a row leave exactly one registration, the second
/// binding's, and the second rebind releases the first binding's trigger.
pub proof fn lemma_rebind_twice_keeps_one(active: Option<BindingView>, b1: BindingView, b2: BindingView)
    requires
        trigger_of(b1) is Some,
        trigger_of(b2) is Some,
    ensures
        ({
            let p1 = plan_of(active, b1)->0;
            let p2 = plan_of(active_after(p1, true), b2)->0;
            &&& active_after(p2, true) == Some(b2)
            &&& p2.release == trigger_of(b1)
            &&& registrations_after(
                registrations_after(registrations_of(active), p1, true),
                p2,
                true,
            ) == set![trigger_of(b2)->0]
        }),
{
    let p1 = plan_of(active, b1)->0;
    let p2 = plan_of(active_after(p1, true), b2)->0;
    let r1 = registrations_after(registrations_of(active), p1, true);
    assert(r1 =~= set![trigger_of(b1)->0]);
    assert(registrations_after(r1, p2, true) =~= set![trigger_of(b2)->0]);
}

/// A rebind that the platform refuses leaves no binding active and no trigger
/// registered, whatever was active before.
pub proof fn lemma_refused_rebind_leaves_none(active: Option<BindingView>, b: BindingView)
    requires
        trigger_of(b) is Some,
    ensures
        ({
            let p = plan_of(active, b)->0;
            &&& active_after(p, false) is None
            &&& registrations_after(registrations_of(active), p, false) == Set::<Trigger>::empty()
        }),
{
    let p = plan_of(active, b)->0;
    assert(registrations_after(registrations_of(active), p, false) =~= Set::<Trigger>::empty());
}

/// Whatever the platform answers, a rebind leaves registered exactly the
/// triggers of the binding that is active afterwards: never more than one.
pub proof fn lemma_rebind_keeps_registrations_in_step(
    active: Option<BindingView>,
    b: BindingView,
    accepted: bool,
)
    requires
        trigger_of(b) is Some,
    ensures
        ({
            let p = plan_of(active, b)->0;
            registrations_after(registrations_of(active), p, accepted) == registrations_of(
                active_after(p, accepted),
            )
        }),
{
    let p = plan_of(active, b)->0;
    assert(registrations_after(registrations_of(active), p, accepted) =~= registrations_of(
        active_after(p, accepted),
    ));
}

} // verus!
