use hlist::shader::{Builder, Registry};

#[test]
fn shader_registry_add_appends() {
    let registry: Registry<(), ()> = Registry::default();
    assert_eq!(*registry.uniforms(), ());
    let registry = registry.add::<0, _>(1i32);
    assert_eq!(*registry.uniforms(), ((), 1i32));
    let registry = registry.add::<1, _>(2.5f32);
    assert_eq!(*registry.uniforms(), (((), 1i32), 2.5f32));
}

#[test]
fn shader_builder_new_is_empty() {
    let _builder: Builder<(), ()> = Builder::new();
}
