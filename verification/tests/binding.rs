use glutin_osmesa::buffer::OsMesaBuffer;
use glutin_osmesa::config::{ContextBuilderWrapper, GlProfile, Robustness, Version};
use glutin_osmesa::context::{Negotiation, OsMesaContext};
use glutin_osmesa::dpi::PhysicalSize;
use glutin_osmesa::error::{Abort, Error};
use glutin_osmesa::native::{to_c_int, MakeCurrentArgs, GL_UNSIGNED_BYTE, NO_CONTEXT};

const CLEAR: MakeCurrentArgs =
    MakeCurrentArgs { context: 0, buffer: None, format: 0, width: 0, height: 0 };

/// Stands in for the rasterizer: it accepts every call, and keeps the
/// thread's current context as the call leaves it.
fn accept(current: &mut usize, call: &MakeCurrentArgs) -> u8 {
    *current = call.context;
    1
}

#[test]
fn bind_call_names_the_context_the_format_and_the_dimensions() {
    let context = OsMesaContext::new(0x2000).unwrap();
    let buffer = OsMesaBuffer::new(PhysicalSize::new(320, 200)).unwrap();
    assert_eq!(
        context.make_current(&buffer),
        MakeCurrentArgs {
            context: 0x2000,
            buffer: Some(256_000),
            format: 0x1401,
            width: 320,
            height: 200
        }
    );
    assert_eq!(GL_UNSIGNED_BYTE, 0x1401);
    assert_eq!(NO_CONTEXT, 0);
}

#[test]
fn dimensions_keep_their_bits_as_signed_integers() {
    assert_eq!(to_c_int(0), 0);
    assert_eq!(to_c_int(64), 64);
    assert_eq!(to_c_int(0x7fff_ffff), i32::MAX);
    assert_eq!(to_c_int(0x8000_0000), i32::MIN);
    assert_eq!(to_c_int(0x8000_0001), i32::MIN + 1);
    assert_eq!(to_c_int(u32::MAX), -1);
    for dimension in [0u32, 1, 4096, 0x7fff_ffff, 0x8000_0000, 0xdead_beef, u32::MAX] {
        assert_eq!(to_c_int(dimension), dimension as i32);
    }
}

#[test]
fn bind_call_of_an_oversized_empty_buffer_has_a_negative_dimension() {
    let context = OsMesaContext::new(0x2000).unwrap();
    let buffer = OsMesaBuffer::new(PhysicalSize::new(0x8000_0000, 0)).unwrap();
    let call = context.make_current(&buffer);
    assert_eq!(call.width, i32::MIN);
    assert_eq!(call.height, 0);
    assert_eq!(call.buffer, Some(0));
}

#[test]
fn bind_call_hands_over_the_whole_storage() {
    let context = OsMesaContext::new(0x2000).unwrap();
    for (width, height) in [(1u32, 1u32), (64, 64), (640, 480), (3, 0), (0, 0)] {
        let buffer = OsMesaBuffer::new(PhysicalSize::new(width, height)).unwrap();
        let call = context.make_current(&buffer);
        assert_eq!(call.buffer, Some(buffer.storage().len()));
        assert_eq!(call.buffer, Some((call.width * call.height * 4) as usize));
    }
}

#[test]
fn accepted_calls_are_through() {
    let context = OsMesaContext::new(0x2000).unwrap();
    let buffer = OsMesaBuffer::new(PhysicalSize::new(4, 4)).unwrap();
    for ret in [1u8, 2, 255] {
        assert_eq!(context.make_current(&buffer).outcome(ret), Ok(()));
        assert_eq!(CLEAR.outcome(ret), Ok(()));
    }
}

#[test]
fn refused_binding_aborts() {
    let context = OsMesaContext::new(0x2000).unwrap();
    let buffer = OsMesaBuffer::new(PhysicalSize::new(4, 4)).unwrap();
    assert_eq!(context.make_current(&buffer).outcome(0), Err(Abort::MakeCurrentFailed));
}

#[test]
fn refused_clearing_is_not_implemented() {
    let context = OsMesaContext::new(0x2000).unwrap();
    let call = context.make_not_current(0x2000).expect("the context is current");
    assert_eq!(call.outcome(0), Err(Abort::ClearCurrentUnsupported));
}

#[test]
fn context_is_current_after_bind_and_not_after_unbind() {
    let context = OsMesaContext::new(0x2000).unwrap();
    let buffer = OsMesaBuffer::new(PhysicalSize::new(8, 8)).unwrap();
    let mut current = NO_CONTEXT;
    assert!(!context.is_current(current));

    let call = context.make_current(&buffer);
    let ret = accept(&mut current, &call);
    assert_eq!(call.outcome(ret), Ok(()));
    assert!(context.is_current(current));

    let call = context.make_not_current(current);
    assert_eq!(call, Some(CLEAR));
    let ret = accept(&mut current, &CLEAR);
    assert_eq!(CLEAR.outcome(ret), Ok(()));
    assert!(!context.is_current(current));
}

#[test]
fn unbinding_a_context_that_was_never_bound_does_nothing() {
    let context = OsMesaContext::new(0x2000).unwrap();
    assert_eq!(context.make_not_current(NO_CONTEXT), None);
}

#[test]
fn unbinding_leaves_another_current_context_alone() {
    let context = OsMesaContext::new(0x2000).unwrap();
    let other = OsMesaContext::new(0x3000).unwrap();
    let buffer = OsMesaBuffer::new(PhysicalSize::new(8, 8)).unwrap();
    let mut current = NO_CONTEXT;
    let call = other.make_current(&buffer);
    accept(&mut current, &call);
    assert_eq!(context.make_not_current(current), None);
    assert!(other.is_current(current));
    assert!(!context.is_current(current));
}

#[test]
fn binding_one_context_displaces_the_other() {
    let first = OsMesaContext::new(0x2000).unwrap();
    let second = OsMesaContext::new(0x3000).unwrap();
    let buffer = OsMesaBuffer::new(PhysicalSize::new(8, 8)).unwrap();
    let mut current = NO_CONTEXT;
    accept(&mut current, &first.make_current(&buffer));
    assert!(first.is_current(current) && !second.is_current(current));
    accept(&mut current, &second.make_current(&buffer));
    assert!(!first.is_current(current) && second.is_current(current));
}

#[test]
fn a_context_binds_to_one_buffer_after_another() {
    let context = OsMesaContext::new(0x2000).unwrap();
    let small = OsMesaBuffer::new(PhysicalSize::new(2, 3)).unwrap();
    let large = OsMesaBuffer::new(PhysicalSize::new(200, 300)).unwrap();
    let mut current = NO_CONTEXT;
    let first = context.make_current(&small);
    accept(&mut current, &first);
    assert!(context.is_current(current));
    let second = context.make_current(&large);
    accept(&mut current, &second);
    assert!(context.is_current(current));
    assert_eq!((first.width, first.height), (2, 3));
    assert_eq!((second.width, second.height), (200, 300));
}

#[test]
fn function_addresses_need_the_context_to_be_current() {
    let context = OsMesaContext::new(0x2000).unwrap();
    let expected = Error::BadApiUsage(
        "`get_proc_address` called on context that is not current.".to_string(),
    );
    assert_eq!(context.get_proc_address(Some(NO_CONTEXT)), Err(expected.clone()));
    assert_eq!(context.get_proc_address(Some(0x3000)), Err(expected));
    assert_eq!(context.get_proc_address(Some(0x2000)), Ok(()));
}

#[test]
fn function_addresses_are_not_guarded_without_validation() {
    let context = OsMesaContext::new(0x2000).unwrap();
    assert_eq!(context.get_proc_address(None), Ok(()));
}

#[test]
fn offscreen_rendering_from_creation_to_unbinding() {
    let buffer = OsMesaBuffer::new(PhysicalSize::new(64, 64)).unwrap();
    assert_eq!(buffer.storage().len(), 16384);

    let cb: ContextBuilderWrapper<&OsMesaContext> = ContextBuilderWrapper {
        sharing: None,
        profile: Some(GlProfile::Core),
        robustness: Robustness::default(),
    };
    let attribs = match OsMesaContext::negotiate(&cb, Version(3, 3), Ok(())) {
        Negotiation::Create(attribs) => attribs,
        other => panic!("no context is asked for: {:?}", other),
    };
    assert_eq!(attribs, vec![0x33, 0x34, 0x36, 3, 0x37, 3, 0]);
    let mut context = OsMesaContext::new(0x5555_0000).expect("the handle is not null");

    let mut current = NO_CONTEXT;
    let call = context.make_current(&buffer);
    assert_eq!(
        call,
        MakeCurrentArgs {
            context: 0x5555_0000,
            buffer: Some(16384),
            format: GL_UNSIGNED_BYTE,
            width: 64,
            height: 64
        }
    );
    let ret = accept(&mut current, &call);
    assert_eq!(call.outcome(ret), Ok(()));
    assert!(context.is_current(current));
    assert_eq!(context.get_proc_address(Some(current)), Ok(()));

    let call = context.make_not_current(current).expect("the context is current");
    let ret = accept(&mut current, &call);
    assert_eq!(call.outcome(ret), Ok(()));
    assert!(!context.is_current(current));

    assert_eq!(context.release(), Some(0x5555_0000));
    assert_eq!(context.release(), None);
}
