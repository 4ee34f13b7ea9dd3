use chez_embed::handle::{Handle, EOF_ADDR, VOID_ADDR};
use chez_embed::host::add_numbers;
use chez_embed::lifecycle::{BootLayer, Lifecycle, LifecycleError, Phase};
use chez_embed::repl::{Action, ReplState};
use chez_embed::text::{c_text, TextError};

/// Runs the driver from `start`, answering each action from `answer`, for at
/// most `limit` steps; returns the actions asked for.
fn drive(start: ReplState, limit: usize, mut answer: impl FnMut(&Action) -> Handle) -> Vec<Action> {
    let mut state = start;
    let mut actions = Vec::new();
    for _ in 0..limit {
        let a = state.action();
        actions.push(a);
        if a == Action::Stop {
            break;
        }
        let reply = answer(&a);
        state = state.step(reply);
    }
    actions
}

#[test]
fn text_is_terminated() {
    assert_eq!(c_text("abc"), Ok(vec![97u8, 98, 99, 0]));
}

#[test]
fn empty_text_is_one_null() {
    assert_eq!(c_text(""), Ok(vec![0u8]));
}

#[test]
fn multibyte_text_keeps_its_bytes() {
    assert_eq!(c_text("é"), Ok(vec![0xC3u8, 0xA9, 0]));
}

#[test]
fn text_with_null_is_invalid() {
    assert_eq!(c_text("a\0b"), Err(TextError::InvalidText));
    assert_eq!(c_text("\0"), Err(TextError::InvalidText));
    assert_eq!(c_text("abc\0"), Err(TextError::InvalidText));
}

#[test]
fn sentinels() {
    assert!(Handle::void().is_void());
    assert!(!Handle::void().is_eof());
    assert!(Handle::eof().is_eof());
    assert!(!Handle::eof().is_void());
    assert_eq!(Handle::from_addr(0x2E), Handle::void());
    assert_eq!(Handle::from_addr(0x36), Handle::eof());
    assert_eq!(VOID_ADDR, 0x2E);
    assert_eq!(EOF_ADDR, 0x36);
    assert!(!Handle::from_addr(0x100).is_void());
    assert!(!Handle::from_addr(0x100).is_eof());
}

#[test]
fn host_function_adds() {
    assert_eq!(add_numbers(3, 4), 7);
    assert_eq!(add_numbers(-5, 2), -3);
    assert_eq!(add_numbers(i32::MAX, 0), i32::MAX);
    assert_eq!(add_numbers(i32::MIN, 0), i32::MIN);
}

#[test]
fn end_of_input_at_read_terminates() {
    let checked = ReplState::Read.step(Handle::eof());
    assert_eq!(checked, ReplState::CheckEof(Handle::eof()));
    assert_eq!(checked.action(), Action::Nothing);
    assert_eq!(checked.step(Handle::void()), ReplState::Terminate);
    let actions = drive(ReplState::Read, 100, |_| Handle::eof());
    assert_eq!(
        actions,
        vec![
            Action::CallRead,
            Action::Nothing,
            Action::CallNewline,
            Action::Deinitialize,
            Action::Stop
        ]
    );
}

#[test]
fn void_result_is_not_printed() {
    let form = Handle::from_addr(0x1000);
    let printed = ReplState::Eval(form).step(Handle::void());
    assert_eq!(printed, ReplState::Print(Handle::void()));
    assert_eq!(printed.action(), Action::Nothing);
    assert_eq!(printed.step(Handle::void()), ReplState::Loop);
    assert_eq!(ReplState::Loop.step(Handle::void()), ReplState::Prompt);
}

#[test]
fn other_result_is_printed() {
    let result = Handle::from_addr(0x2000);
    assert_eq!(
        ReplState::Print(result).action(),
        Action::CallPrettyPrint(result)
    );
}

#[test]
fn one_form_then_end_of_input() {
    let form = Handle::from_addr(0x1000);
    let seven = Handle::from_addr(0x2000);
    let mut reads = 0;
    let actions = drive(ReplState::start(), 100, |a| match a {
        Action::CallRead => {
            reads += 1;
            if reads == 1 {
                form
            } else {
                Handle::eof()
            }
        }
        Action::CallEval(f) => {
            assert_eq!(*f, form);
            seven
        }
        _ => Handle::void(),
    });
    assert_eq!(
        actions,
        vec![
            Action::ShowPrompt,
            Action::CallRead,
            Action::Nothing,
            Action::CallEval(form),
            Action::CallPrettyPrint(seven),
            Action::Nothing,
            Action::ShowPrompt,
            Action::CallRead,
            Action::Nothing,
            Action::CallNewline,
            Action::Deinitialize,
            Action::Stop
        ]
    );
    let teardowns = actions.iter().filter(|a| **a == Action::Deinitialize).count();
    assert_eq!(teardowns, 1);
}

#[test]
fn stopped_stays_stopped() {
    assert!(ReplState::Stopped.is_stopped());
    assert!(!ReplState::Teardown.is_stopped());
    assert_eq!(ReplState::Stopped.step(Handle::eof()), ReplState::Stopped);
    assert_eq!(ReplState::Stopped.action(), Action::Stop);
}

#[test]
fn lifecycle_in_order() {
    let mut l = Lifecycle::new();
    assert_eq!(l.phase(), Phase::Uninitialized);
    assert_eq!(l.initialize(), Ok(()));
    assert_eq!(l.phase(), Phase::Booting);
    assert_eq!(
        l.register_boot_file(BootLayer::Base, "petite.boot"),
        Ok(b"petite.boot\0".to_vec())
    );
    assert_eq!(
        l.register_boot_file(BootLayer::Extended, "scheme.boot"),
        Ok(b"scheme.boot\0".to_vec())
    );
    assert_eq!(l.boot_files(), 2);
    assert_eq!(l.build_heap(), Ok(()));
    assert_eq!(l.phase(), Phase::Ready);
    assert_eq!(l.ensure_ready(), Ok(()));
    assert_eq!(
        l.register_foreign("add_numbers"),
        Ok(b"add_numbers\0".to_vec())
    );
    assert_eq!(l.deinitialize(), Ok(()));
    assert_eq!(l.phase(), Phase::Terminated);
}

#[test]
fn lifecycle_refuses_out_of_turn() {
    let mut l = Lifecycle::new();
    assert_eq!(l.ensure_ready(), Err(LifecycleError::WrongPhase));
    assert_eq!(
        l.register_boot_file(BootLayer::Base, "petite.boot"),
        Err(LifecycleError::WrongPhase)
    );
    assert_eq!(l.build_heap(), Err(LifecycleError::WrongPhase));
    assert_eq!(l.deinitialize(), Err(LifecycleError::WrongPhase));
    assert_eq!(
        l.register_foreign("add_numbers"),
        Err(LifecycleError::WrongPhase)
    );
    assert_eq!(l.initialize(), Ok(()));
    assert_eq!(l.initialize(), Err(LifecycleError::WrongPhase));
    assert_eq!(
        l.register_foreign("add_numbers"),
        Err(LifecycleError::WrongPhase)
    );
}

#[test]
fn boot_images_in_fixed_order() {
    let mut l = Lifecycle::new();
    assert_eq!(l.initialize(), Ok(()));
    assert_eq!(
        l.register_boot_file(BootLayer::Extended, "scheme.boot"),
        Err(LifecycleError::BootOrder)
    );
    assert_eq!(l.boot_files(), 0);
    assert_eq!(l.build_heap(), Err(LifecycleError::MissingBootFiles));
    assert_eq!(
        l.register_boot_file(BootLayer::Base, "pet\0ite.boot"),
        Err(LifecycleError::InvalidText)
    );
    assert_eq!(l.boot_files(), 0);
    assert!(l.register_boot_file(BootLayer::Base, "petite.boot").is_ok());
    assert_eq!(
        l.register_boot_file(BootLayer::Base, "petite.boot"),
        Err(LifecycleError::BootOrder)
    );
    assert_eq!(l.build_heap(), Err(LifecycleError::MissingBootFiles));
    assert!(l.register_boot_file(BootLayer::Extended, "scheme.boot").is_ok());
    assert_eq!(
        l.register_boot_file(BootLayer::Extended, "scheme.boot"),
        Err(LifecycleError::BootOrder)
    );
    assert_eq!(l.build_heap(), Ok(()));
    assert_eq!(l.build_heap(), Err(LifecycleError::WrongPhase));
}

#[test]
fn teardown_only_once() {
    let mut l = Lifecycle::new();
    assert_eq!(l.initialize(), Ok(()));
    assert!(l.register_boot_file(BootLayer::Base, "a").is_ok());
    assert!(l.register_boot_file(BootLayer::Extended, "b").is_ok());
    assert_eq!(l.build_heap(), Ok(()));
    assert_eq!(
        l.register_foreign("add\0numbers"),
        Err(LifecycleError::InvalidText)
    );
    assert_eq!(l.deinitialize(), Ok(()));
    assert_eq!(l.deinitialize(), Err(LifecycleError::WrongPhase));
    assert_eq!(l.ensure_ready(), Err(LifecycleError::WrongPhase));
    assert_eq!(l.initialize(), Err(LifecycleError::WrongPhase));
}
