//! The compiled program variants and the choice between them.
//!
//! A variant is one compiled instance of the rendering program. The manager
//! keeps the last good variant of each precision; a candidate takes a slot
//! only once it is known to be good, so a failed compilation never disturbs
//! what is being drawn with.

use vstd::prelude::*;
use crate::tunables::Tunables;

verus! {

/// The numeric precision a variant computes with.
#[derive(Clone, Copy, Debug, PartialEq, Eq, Structural)]
pub enum ProgramKind {
    Standard,
    Extended,
}

/// One compiled instance of the rendering program. `handle` is whatever the
/// device gave for it.
pub struct ProgramVariant<H> {
    pub kind: ProgramKind,
    pub handle: H,
    pub is_valid: bool,
}

/// The usable handle of each kind, if there is one.
pub ghost struct Programs<H> {
    pub standard: Option<H>,
    pub extended: Option<H>,
}

/// Which variant a frame is drawn with.
#[derive(Clone, Copy, Debug, PartialEq, Eq, Structural)]
pub struct Selection {
    /// The kind to draw with, or `None` when no variant can be drawn with.
    pub kind: Option<ProgramKind>,
    /// Extended precision was asked for and is not to be had. The caller
    /// warns the user once for each selection that says so.
    pub fell_back: bool,
}

impl<H> Programs<H> {
    /// The usable handle of `kind`.
    pub open spec fn handle(self, kind: ProgramKind) -> Option<H> {
        match kind {
            ProgramKind::Standard => self.standard,
            ProgramKind::Extended => self.extended,
        }
    }

    /// The programs after `handle` has taken the slot of `kind`.
    pub open spec fn with(self, kind: ProgramKind, handle: H) -> Programs<H> {
        match kind {
            ProgramKind::Standard => Programs { standard: Some(handle), extended: self.extended },
            ProgramKind::Extended => Programs { standard: self.standard, extended: Some(handle) },
        }
    }

    /// The programs after the outcome of compiling the variant of `kind`: a
    /// new handle takes the slot, a failure leaves everything as it was.
    pub open spec fn compiled<E>(self, kind: ProgramKind, outcome: Result<H, E>) -> Programs<H> {
        match outcome {
            Ok(handle) => self.with(kind, handle),
            Err(_) => self,
        }
    }

    /// The choice for a frame: the extended variant when it is asked for and
    /// usable, else the standard one; a fall-back whenever the extended one is
    /// asked for and not usable.
    pub open spec fn selection(self, use_extended: bool) -> Selection {
        if use_extended && self.extended is Some {
            Selection { kind: Some(ProgramKind::Extended), fell_back: false }
        } else {
            Selection {
                kind: if self.standard is Some {
                    Some(ProgramKind::Standard)
                } else {
                    None
                },
                fell_back: use_extended,
            }
        }
    }

    /// The parameters after a selection: a request for extended precision
    /// stays only if it was met.
    pub open spec fn selected(self, tunables: Tunables) -> Tunables {
        tunables.with_precision(
            tunables.use_extended_precision && !self.selection(
                tunables.use_extended_precision,
            ).fell_back,
        )
    }

    /// The handle a frame is drawn with.
    pub open spec fn active(self, use_extended: bool) -> Option<H> {
        match self.selection(use_extended).kind {
            Some(kind) => self.handle(kind),
            None => None,
        }
    }
}

/// Owner of the compiled variants: at most one of each kind.
pub struct ProgramManager<H> {
    standard: Option<ProgramVariant<H>>,
    extended: Option<ProgramVariant<H>>,
}

impl<H> View for ProgramManager<H> {
    type V = Programs<H>;

    closed spec fn view(&self) -> Programs<H> {
        Programs {
            standard: match self.standard {
                Some(v) => Some(v.handle),
                None => None,
            },
            extended: match self.extended {
                Some(v) => Some(v.handle),
                None => None,
            },
        }
    }
}

impl<H> ProgramManager<H> {
    /// Each slot holds a valid variant of its own kind, or nothing.
    #[verifier::type_invariant]
    spec fn slots_hold_good_variants(self) -> bool {
        &&& self.standard matches Some(v) ==> v.is_valid && v.kind == ProgramKind::Standard
        &&& self.extended matches Some(v) ==> v.is_valid && v.kind == ProgramKind::Extended
    }

    /// A manager without any variant.
    pub fn new() -> (m: ProgramManager<H>)
        ensures
            m@.standard is None,
            m@.extended is None,
    {
        ProgramManager { standard: None, extended: None }
    }

    /// Offers a candidate variant. A valid one takes the slot of its kind and
    /// replaces what was there; an invalid one is turned away and nothing
    /// changes. Returns whether the candidate was stored.
    pub fn store(&mut self, candidate: ProgramVariant<H>) -> (stored: bool)
        ensures
            stored == candidate.is_valid,
            stored ==> final(self)@ == old(self)@.with(candidate.kind, candidate.handle),
            !stored ==> final(self)@ == old(self)@,
        no_unwind
    {
        if !candidate.is_valid {
            return false;
        }
        proof {
            use_type_invariant(&*self);
        }
        match candidate.kind {
            ProgramKind::Standard => {
                self.standard = Some(candidate);
            },
            ProgramKind::Extended => {
                self.extended = Some(candidate);
            },
        }
        true
    }

    /// Records the outcome of compiling the variant of `kind`. On success the
    /// new handle replaces the variant of that kind; on failure nothing
    /// changes and the failure is handed back.
    pub fn compile<E>(&mut self, kind: ProgramKind, outcome: Result<H, E>) -> (r: Result<(), E>)
        ensures
            final(self)@ == old(self)@.compiled(kind, outcome),
            match outcome {
                Ok(_) => r is Ok,
                Err(e) => r == Err::<(), E>(e),
            },
        no_unwind
    {
        match outcome {
            Ok(handle) => {
                self.store(ProgramVariant { kind, handle, is_valid: true });
                Ok(())
            },
            Err(e) => Err(e),
        }
    }

    /// Whether a variant of `kind` can be drawn with.
    pub fn has(&self, kind: ProgramKind) -> (r: bool)
        ensures
            r == (self@.handle(kind) is Some),
    {
        match kind {
            ProgramKind::Standard => self.standard.is_some(),
            ProgramKind::Extended => self.extended.is_some(),
        }
    }

    /// Chooses the variant for a frame from the precision that the parameters
    /// ask for. When the extended variant is asked for and cannot be drawn
    /// with, the choice falls back to the standard one and the request is
    /// withdrawn from the parameters, so that later frames ask for the
    /// standard variant.
    pub fn select(&self, tunables: &mut Tunables) -> (s: Selection)
        ensures
            s == self@.selection(old(tunables).use_extended_precision),
            *final(tunables) == self@.selected(*old(tunables)),
    {
        if tunables.use_extended_precision && self.extended.is_some() {
            Selection { kind: Some(ProgramKind::Extended), fell_back: false }
        } else {
            let fell_back = tunables.use_extended_precision;
            tunables.use_extended_precision = false;
            Selection {
                kind: if self.standard.is_some() {
                    Some(ProgramKind::Standard)
                } else {
                    None
                },
                fell_back,
            }
        }
    }

    /// The handle to draw a frame with: that of the variant which a selection
    /// for the same precision names. No other way leads to a handle.
    pub fn active(&self, use_extended: bool) -> (h: Option<&H>)
        ensures
            h matches Some(handle) ==> self@.active(use_extended) == Some(*handle),
            h is None <==> self@.active(use_extended) is None,
    {
        let slot = if use_extended && self.extended.is_some() {
            &self.extended
        } else {
            &self.standard
        };
        match slot {
            Some(variant) => Some(&variant.handle),
            None => None,
        }
    }
}

/// When the extended variant fails to compile and none was held before, a
/// selection that asks for extended precision falls back: it draws with the
/// standard program and withdraws the request from the parameters.
pub proof fn lemma_failed_extended_compile_falls_back<H, E>(
    programs: Programs<H>,
    failure: E,
    tunables: Tunables,
)
    requires
        programs.extended is None,
        tunables.use_extended_precision,
    ensures
        ({
            let after = programs.compiled(ProgramKind::Extended, Err::<H, E>(failure));
            &&& after == programs
            &&& after.selection(true).fell_back
            &&& after.active(true) == programs.standard
            &&& !after.selected(tunables).use_extended_precision
            &&& after.selected(tunables) == tunables.with_precision(false)
        }),
{
}

/// After a selection the parameters ask for extended precision only if an
/// extended variant can be drawn with, so the next selection does not fall
/// back: the user is warned once, not in every frame.
pub proof fn lemma_fallback_is_reported_once<H>(programs: Programs<H>, tunables: Tunables)
    ensures
        ({
            let after = programs.selected(tunables);
            &&& after.use_extended_precision ==> programs.extended is Some
            &&& !programs.selection(after.use_extended_precision).fell_back
            &&& programs.selected(after) == after
        }),
{
}

/// A selection never names a variant that cannot be drawn with, and names one
/// whenever a standard variant is held.
pub proof fn lemma_selection_is_drawable<H>(programs: Programs<H>, use_extended: bool)
    ensures
        programs.selection(use_extended).kind matches Some(kind) ==> programs.handle(kind) is Some,
        programs.standard is Some ==> programs.active(use_extended) is Some,
{
}

} // verus!
