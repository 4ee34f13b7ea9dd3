//! The embedded runtime's lifecycle: initialized once, given its two boot
//! images (base layer first, extended layer second), heap built, used, and
//! torn down once. Each lifecycle step answers whether the runtime may be
//! entered at that point; the runtime is entered only on `Ok`.
use vstd::prelude::*;
use vstd::string::*;
use crate::text::{c_text, has_null, terminated, TextError};

verus! {

/// The stage of the runtime's life.
#[derive(Clone, Copy, Debug, PartialEq, Eq, Structural)]
pub enum Phase {
    /// Not yet initialized.
    Uninitialized,
    /// Initialized; boot images being registered.
    Booting,
    /// Heap built: values can be made, names resolved, procedures called.
    Ready,
    /// Torn down; nothing more may be done.
    Terminated,
}

/// The two boot images, in the order the runtime needs them.
#[derive(Clone, Copy, Debug, PartialEq, Eq, Structural)]
pub enum BootLayer {
    /// The base-language image, registered first.
    Base,
    /// The extended-language image, registered second.
    Extended,
}

/// A lifecycle call made out of turn, or with text the runtime cannot take.
#[derive(Clone, Copy, Debug, PartialEq, Eq, Structural)]
pub enum LifecycleError {
    /// The call is not allowed in the current phase.
    WrongPhase,
    /// A boot image given out of order, or a third one.
    BootOrder,
    /// The heap was asked for before both boot images were registered.
    MissingBootFiles,
    /// A path or name holding a null byte.
    InvalidText,
}

/// The layer expected after `registered` boot images, if any is.
pub open spec fn expected_layer(registered: nat) -> Option<BootLayer> {
    if registered == 0 {
        Some(BootLayer::Base)
    } else if registered == 1 {
        Some(BootLayer::Extended)
    } else {
        None
    }
}

/// What a lifecycle is: its phase, and how many boot images it holds.
pub struct LifecycleView {
    pub phase: Phase,
    pub boot_files: nat,
}

/// The process-wide state of the embedded runtime.
pub struct Lifecycle {
    phase: Phase,
    boot_files: u8,
}

impl View for Lifecycle {
    type V = LifecycleView;

    closed spec fn view(&self) -> LifecycleView {
        LifecycleView { phase: self.phase, boot_files: self.boot_files as nat }
    }
}

impl Lifecycle {
    /// Boot images are counted up to two, none before initialization, and
    /// both are there once the heap is built.
    pub open spec fn wf(&self) -> bool {
        &&& self@.boot_files <= 2
        &&& self@.phase == Phase::Uninitialized ==> self@.boot_files == 0
        &&& (self@.phase == Phase::Ready || self@.phase == Phase::Terminated)
            ==> self@.boot_files == 2
    }

    pub fn new() -> (l: Lifecycle)
        ensures
            l.wf(),
            l@.phase == Phase::Uninitialized,
            l@.boot_files == 0,
    {
        Lifecycle { phase: Phase::Uninitialized, boot_files: 0 }
    }

    /// The current phase.
    pub fn phase(&self) -> (p: Phase)
        ensures
            p == self@.phase,
    {
        self.phase
    }

    /// How many boot images are registered.
    pub fn boot_files(&self) -> (n: u8)
        ensures
            n as nat == self@.boot_files,
    {
        self.boot_files
    }

    /// Allows the runtime's initialization, once, from the start.
    pub fn initialize(&mut self) -> (r: Result<(), LifecycleError>)
        requires
            old(self).wf(),
        ensures
            final(self).wf(),
            r is Ok <==> old(self)@.phase == Phase::Uninitialized,
            r is Ok ==> final(self)@ == (LifecycleView { phase: Phase::Booting, boot_files: 0 }),
            r is Err ==> r == Err::<(), LifecycleError>(LifecycleError::WrongPhase)
                && final(self)@ == old(self)@,
    {
        match self.phase {
            Phase::Uninitialized => {
                self.phase = Phase::Booting;
                Ok(())
            },
            _ => Err(LifecycleError::WrongPhase),
        }
    }

    /// Allows the registration of the boot image `layer` found at `path`,
    /// and gives the path in the runtime's terminated form. Fails with
    /// `WrongPhase` outside booting, with `BootOrder` when `layer` is not the
    /// one expected next, and with `InvalidText` when the path holds a null
    /// byte, in that order; a failure changes nothing.
    pub fn register_boot_file(&mut self, layer: BootLayer, path: &str) -> (r: Result<
        Vec<u8>,
        LifecycleError,
    >)
        requires
            old(self).wf(),
        ensures
            final(self).wf(),
            old(self)@.phase != Phase::Booting ==> r == Err::<Vec<u8>, LifecycleError>(
                LifecycleError::WrongPhase,
            ),
            old(self)@.phase == Phase::Booting && expected_layer(old(self)@.boot_files) != Some(
                layer,
            ) ==> r == Err::<Vec<u8>, LifecycleError>(LifecycleError::BootOrder),
            old(self)@.phase == Phase::Booting && expected_layer(old(self)@.boot_files) == Some(
                layer,
            ) ==> (r is Err <==> has_null(path.spec_bytes())),
            r is Err ==> r == Err::<Vec<u8>, LifecycleError>(LifecycleError::WrongPhase) || r
                == Err::<Vec<u8>, LifecycleError>(LifecycleError::BootOrder) || r == Err::<
                Vec<u8>,
                LifecycleError,
            >(LifecycleError::InvalidText),
            r is Err ==> final(self)@ == old(self)@,
            r matches Ok(v) ==> v@ == terminated(path.spec_bytes()) && final(self)@ == (
            LifecycleView { phase: Phase::Booting, boot_files: old(self)@.boot_files + 1 }),
    {
        match self.phase {
            Phase::Booting => {},
            _ => {
                return Err(LifecycleError::WrongPhase);
            },
        }
        let expected = if self.boot_files == 0 {
            BootLayer::Base
        } else if self.boot_files == 1 {
            BootLayer::Extended
        } else {
            return Err(LifecycleError::BootOrder);
        };
        if layer != expected {
            return Err(LifecycleError::BootOrder);
        }
        match c_text(path) {
            Ok(bytes) => {
                self.boot_files = self.boot_files + 1;
                Ok(bytes)
            },
            Err(TextError::InvalidText) => Err(LifecycleError::InvalidText),
        }
    }

    /// Allows the heap to be built, once both boot images are registered.
    pub fn build_heap(&mut self) -> (r: Result<(), LifecycleError>)
        requires
            old(self).wf(),
        ensures
            final(self).wf(),
            r is Ok <==> old(self)@.phase == Phase::Booting && old(self)@.boot_files == 2,
            r is Ok ==> final(self)@ == (LifecycleView { phase: Phase::Ready, boot_files: 2 }),
            old(self)@.phase != Phase::Booting ==> r == Err::<(), LifecycleError>(
                LifecycleError::WrongPhase,
            ),
            old(self)@.phase == Phase::Booting && old(self)@.boot_files < 2 ==> r == Err::<
                (),
                LifecycleError,
            >(LifecycleError::MissingBootFiles),
            r is Err ==> final(self)@ == old(self)@,
    {
        match self.phase {
            Phase::Booting => {
                if self.boot_files == 2 {
                    self.phase = Phase::Ready;
                    Ok(())
                } else {
                    Err(LifecycleError::MissingBootFiles)
                }
            },
            _ => Err(LifecycleError::WrongPhase),
        }
    }

    /// Allows a call into the runtime: values, symbols, procedure calls.
    pub fn ensure_ready(&self) -> (r: Result<(), LifecycleError>)
        ensures
            r is Ok <==> self@.phase == Phase::Ready,
            r is Err ==> r == Err::<(), LifecycleError>(LifecycleError::WrongPhase),
    {
        match self.phase {
            Phase::Ready => Ok(()),
            _ => Err(LifecycleError::WrongPhase),
        }
    }

    /// Allows a host function to be registered under `name`, which must come
    /// after the heap is built, and gives the name in terminated form.
    pub fn register_foreign(&self, name: &str) -> (r: Result<Vec<u8>, LifecycleError>)
        ensures
            self@.phase != Phase::Ready ==> r == Err::<Vec<u8>, LifecycleError>(
                LifecycleError::WrongPhase,
            ),
            self@.phase == Phase::Ready ==> (r is Err <==> has_null(name.spec_bytes())),
            self@.phase == Phase::Ready && r is Err ==> r == Err::<Vec<u8>, LifecycleError>(
                LifecycleError::InvalidText,
            ),
            r matches Ok(v) ==> v@ == terminated(name.spec_bytes()),
    {
        match self.phase {
            Phase::Ready => {},
            _ => {
                return Err(LifecycleError::WrongPhase);
            },
        }
        match c_text(name) {
            Ok(bytes) => Ok(bytes),
            Err(TextError::InvalidText) => Err(LifecycleError::InvalidText),
        }
    }

    /// Allows the runtime to be torn down: once, and only once it is ready.
    pub fn deinitialize(&mut self) -> (r: Result<(), LifecycleError>)
        requires
            old(self).wf(),
        ensures
            final(self).wf(),
            r is Ok <==> old(self)@.phase == Phase::Ready,
            r is Ok ==> final(self)@ == (LifecycleView {
                phase: Phase::Terminated,
                boot_files: 2,
            }),
            r is Err ==> r == Err::<(), LifecycleError>(LifecycleError::WrongPhase)
                && final(self)@ == old(self)@,
    {
        match self.phase {
            Phase::Ready => {
                self.phase = Phase::Terminated;
                Ok(())
            },
            _ => Err(LifecycleError::WrongPhase),
        }
    }
}

} // verus!
