use engines::{OpaqueCompiler, Registry, SharedCompilerConfig, TransferError};
use std::sync::Arc;
use wasmer_compiler::{CompilerConfig, CpuFeature, Features, Target, Triple};
use wasmer_compiler_singlepass::Singlepass;

fn singlepass() -> Arc<dyn CompilerConfig + Send + Sync> {
    Arc::new(Singlepass::new())
}

/// The host without a look at what its processor offers.
fn plain_host() -> Target {
    Target::new(Triple::host(), CpuFeature::set())
}

/// The empty module: the magic number and the version.
const EMPTY_MODULE: [u8; 8] = [0x00, 0x61, 0x73, 0x6d, 0x01, 0x00, 0x00, 0x00];

fn shared(config: &Arc<dyn CompilerConfig + Send + Sync>) -> SharedCompilerConfig {
    SharedCompilerConfig { compiler_config: Arc::clone(config) }
}

#[test]
fn new_registry_has_room_and_resolves_nothing() {
    let registry = Registry::new();
    assert!(registry.has_room());
    assert!(matches!(registry.resolve(1), Err(TransferError::UnknownHandle)));
    assert!(matches!(registry.resolve(usize::MAX), Err(TransferError::UnknownHandle)));
}

#[test]
fn handles_start_at_one_and_increase() {
    let mut registry = Registry::new();
    let config = singlepass();
    let first = OpaqueCompiler::raw_with_compiler(&mut registry, shared(&config));
    let second = OpaqueCompiler::raw_with_compiler(&mut registry, shared(&config));
    let third = OpaqueCompiler::raw_with_compiler(&mut registry, shared(&config));
    assert_eq!(first.__inner_as_ptr(), 1);
    assert_eq!(second.__inner_as_ptr(), 2);
    assert_eq!(third.__inner_as_ptr(), 3);
    assert!(registry.has_room());
}

#[test]
fn round_trip_gives_back_the_wrapped_configuration() {
    let mut registry = Registry::new();
    let config = singlepass();
    let carrier = OpaqueCompiler::raw_with_compiler(&mut registry, shared(&config));
    let resolved = registry.resolve(carrier.__inner_as_ptr()).unwrap();
    assert!(Arc::ptr_eq(&resolved.compiler_config, &config));
    assert!(Arc::ptr_eq(&carrier.compiler_config().compiler_config, &config));
    let target = plain_host();
    assert_eq!(
        resolved.compiler_config.default_features_for_target(&target),
        config.default_features_for_target(&target)
    );
    let compiler = resolved.compiler_config.compiler();
    assert!(compiler.validate_module(&Features::default(), &EMPTY_MODULE[..]).is_ok());
}

#[test]
fn resolving_shares_and_does_not_move() {
    let mut registry = Registry::new();
    let config = singlepass();
    assert_eq!(Arc::strong_count(&config), 1);
    let carrier = OpaqueCompiler::raw_with_compiler(&mut registry, shared(&config));
    // The test, the carrier and the registry.
    assert_eq!(Arc::strong_count(&config), 3);
    let handle = carrier.__inner_as_ptr();
    let once = registry.resolve(handle).unwrap();
    assert_eq!(Arc::strong_count(&config), 4);
    let twice = registry.resolve(handle).unwrap();
    assert_eq!(Arc::strong_count(&config), 5);
    assert!(Arc::ptr_eq(&once.compiler_config, &twice.compiler_config));
    drop(once);
    drop(twice);
    assert_eq!(Arc::strong_count(&config), 3);
    assert!(registry.resolve(handle).is_ok());
}

#[test]
fn null_handle_is_rejected() {
    let mut registry = Registry::new();
    assert!(matches!(registry.resolve(0), Err(TransferError::NullHandle)));
    let config = singlepass();
    let _carrier = OpaqueCompiler::raw_with_compiler(&mut registry, shared(&config));
    assert!(matches!(registry.resolve(0), Err(TransferError::NullHandle)));
    assert!(matches!(registry.select(Some(0)), Err(TransferError::NullHandle)));
}

#[test]
fn unknown_handle_is_rejected() {
    let mut registry = Registry::new();
    let config = singlepass();
    let carrier = OpaqueCompiler::raw_with_compiler(&mut registry, shared(&config));
    assert_eq!(carrier.__inner_as_ptr(), 1);
    assert!(matches!(registry.resolve(2), Err(TransferError::UnknownHandle)));
    assert!(matches!(registry.resolve(0xdead_beef), Err(TransferError::UnknownHandle)));
}

#[test]
fn resolved_configuration_survives_the_carrier() {
    let mut registry = Registry::new();
    let carrier =
        OpaqueCompiler::raw_with_compiler(&mut registry, SharedCompilerConfig { compiler_config: singlepass() });
    let handle = carrier.__inner_as_ptr();
    let resolved = registry.resolve(handle).unwrap();
    assert_eq!(Arc::strong_count(&resolved.compiler_config), 3);
    assert!(registry.release(carrier));
    // Only the resolved share is left, and it still answers.
    assert_eq!(Arc::strong_count(&resolved.compiler_config), 1);
    let target = plain_host();
    let features = resolved.compiler_config.default_features_for_target(&target);
    assert_eq!(features, Singlepass::new().default_features_for_target(&target));
    let compiler = resolved.compiler_config.compiler();
    assert!(compiler.validate_module(&features, &EMPTY_MODULE[..]).is_ok());
    assert!(compiler.validate_module(&features, &[0x00, 0x61, 0x73][..]).is_err());
}

#[test]
fn handle_accessor_is_idempotent() {
    let mut registry = Registry::new();
    let config = singlepass();
    let carrier = OpaqueCompiler::raw_with_compiler(&mut registry, shared(&config));
    let before = carrier.__inner_as_ptr();
    assert_eq!(carrier.__inner_as_ptr(), before);
    let other = OpaqueCompiler::raw_with_compiler(&mut registry, shared(&config));
    assert_eq!(carrier.__inner_as_ptr(), before);
    assert!(registry.release(other));
    assert_eq!(carrier.__inner_as_ptr(), before);
    assert_eq!(before, 1);
}

#[test]
fn live_carriers_have_different_handles() {
    let mut registry = Registry::new();
    let one = singlepass();
    let two = singlepass();
    let a = OpaqueCompiler::raw_with_compiler(&mut registry, shared(&one));
    let b = OpaqueCompiler::raw_with_compiler(&mut registry, shared(&two));
    // The same configuration wrapped a second time is a carrier of its own.
    let c = OpaqueCompiler::raw_with_compiler(&mut registry, shared(&one));
    assert_ne!(a.__inner_as_ptr(), b.__inner_as_ptr());
    assert_ne!(a.__inner_as_ptr(), c.__inner_as_ptr());
    assert_ne!(b.__inner_as_ptr(), c.__inner_as_ptr());
    let from_a = registry.resolve(a.__inner_as_ptr()).unwrap();
    let from_b = registry.resolve(b.__inner_as_ptr()).unwrap();
    let from_c = registry.resolve(c.__inner_as_ptr()).unwrap();
    assert!(Arc::ptr_eq(&from_a.compiler_config, &one));
    assert!(Arc::ptr_eq(&from_b.compiler_config, &two));
    assert!(Arc::ptr_eq(&from_c.compiler_config, &one));
    assert!(!Arc::ptr_eq(&from_a.compiler_config, &from_b.compiler_config));
}

#[test]
fn released_handle_resolves_no_longer() {
    let mut registry = Registry::new();
    let config = singlepass();
    let a = OpaqueCompiler::raw_with_compiler(&mut registry, shared(&config));
    let b = OpaqueCompiler::raw_with_compiler(&mut registry, shared(&config));
    let stale = a.__inner_as_ptr();
    let kept = b.__inner_as_ptr();
    assert!(registry.release(a));
    assert!(matches!(registry.resolve(stale), Err(TransferError::UnknownHandle)));
    assert!(registry.resolve(kept).is_ok());
    // The test and the carrier `b` with its entry.
    assert_eq!(Arc::strong_count(&config), 3);
}

#[test]
fn released_handle_is_not_given_out_again() {
    let mut registry = Registry::new();
    let config = singlepass();
    let a = OpaqueCompiler::raw_with_compiler(&mut registry, shared(&config));
    let stale = a.__inner_as_ptr();
    assert!(registry.release(a));
    let b = OpaqueCompiler::raw_with_compiler(&mut registry, shared(&config));
    assert_eq!(stale, 1);
    assert_eq!(b.__inner_as_ptr(), 2);
    assert!(matches!(registry.resolve(stale), Err(TransferError::UnknownHandle)));
}

#[test]
fn releasing_into_another_registry_leaves_the_carrier_live() {
    let mut home = Registry::new();
    let mut other = Registry::new();
    let config = singlepass();
    let carrier = OpaqueCompiler::raw_with_compiler(&mut home, shared(&config));
    let handle = carrier.__inner_as_ptr();
    assert!(!other.release(carrier));
    assert!(matches!(other.resolve(handle), Err(TransferError::UnknownHandle)));
    let resolved = home.resolve(handle).unwrap();
    assert!(Arc::ptr_eq(&resolved.compiler_config, &config));
}

#[test]
fn two_registries_give_out_the_same_handles() {
    let mut here = Registry::new();
    let mut there = Registry::new();
    let one = singlepass();
    let two = singlepass();
    let a = OpaqueCompiler::raw_with_compiler(&mut here, shared(&one));
    let b = OpaqueCompiler::raw_with_compiler(&mut there, shared(&two));
    assert_eq!(a.__inner_as_ptr(), 1);
    assert_eq!(b.__inner_as_ptr(), 1);
    // Each registry resolves the number to its own carrier's configuration.
    assert!(Arc::ptr_eq(&here.resolve(1).unwrap().compiler_config, &one));
    assert!(Arc::ptr_eq(&there.resolve(1).unwrap().compiler_config, &two));
}

#[test]
fn releasing_a_foreign_carrier_ends_the_carrier_with_its_handle() {
    let mut here = Registry::new();
    let mut there = Registry::new();
    let one = singlepass();
    let two = singlepass();
    let local = OpaqueCompiler::raw_with_compiler(&mut here, shared(&one));
    let foreign = OpaqueCompiler::raw_with_compiler(&mut there, shared(&two));
    assert_eq!(local.__inner_as_ptr(), foreign.__inner_as_ptr());
    assert!(here.release(foreign));
    assert!(matches!(here.resolve(local.__inner_as_ptr()), Err(TransferError::UnknownHandle)));
    // The foreign carrier's own registry still has its entry.
    assert!(Arc::ptr_eq(&there.resolve(1).unwrap().compiler_config, &two));
}

#[test]
fn release_tells_whether_the_handle_was_live() {
    let mut registry = Registry::new();
    let mut other = Registry::new();
    let config = singlepass();
    let _first = OpaqueCompiler::raw_with_compiler(&mut other, shared(&config));
    let second = OpaqueCompiler::raw_with_compiler(&mut other, shared(&config));
    let only = OpaqueCompiler::raw_with_compiler(&mut registry, shared(&config));
    // Handle 2 was never given out by `registry`.
    assert_eq!(second.__inner_as_ptr(), 2);
    assert!(!registry.release(second));
    assert!(registry.resolve(1).is_ok());
    assert!(registry.release(only));
    assert!(matches!(registry.resolve(1), Err(TransferError::UnknownHandle)));
}

#[test]
fn transfer_error_messages() {
    assert_eq!(
        TransferError::NullHandle.message(),
        "Failed to transfer the opaque compiler from the compiler"
    );
    assert_eq!(
        TransferError::UnknownHandle.message(),
        "Failed to transfer the opaque compiler from the compiler: no live carrier has this handle"
    );
    assert_ne!(TransferError::NullHandle, TransferError::UnknownHandle);
}
