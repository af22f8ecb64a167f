//! A registry of shader uniforms, kept as a left-folded sequence.

use std::marker::PhantomData;
use vstd::prelude::*;

verus! {

/// The slot of a uniform of type `U` under the tag `INDEX`.
pub struct Entry<const INDEX: usize, U>(PhantomData<U>);

/// The uniforms registered so far, oldest innermost, and their indices.
#[derive(Default)]
pub struct Registry<US = (), INDS = ()> {
    uniforms: US,
    indices: INDS,
}

impl<US, INDS> Registry<US, INDS> {
    /// The registered uniforms.
    pub closed spec fn spec_uniforms(self) -> US {
        self.uniforms
    }

    /// The registered indices.
    pub closed spec fn spec_indices(self) -> INDS {
        self.indices
    }

    /// The registered uniforms.
    pub fn uniforms(&self) -> (r: &US)
        ensures
            *r == self.spec_uniforms(),
    {
        &self.uniforms
    }
}

impl<US> Registry<US, ()> {
    /// Registers `value` behind the uniforms registered before. The indices
    /// stay as they are.
    pub fn add<const INDEX: usize, U>(self, value: U) -> (r: Registry<(US, U), ()>)
        ensures
            r.spec_uniforms() == (self.spec_uniforms(), value),
            r.spec_indices() == self.spec_indices(),
    {
        let Self { uniforms, indices } = self;
        Registry { uniforms: (uniforms, value), indices }
    }
}

impl<US, INDS: crate::indexed::lhlist::Base> Registry<US, INDS> {
    /// Reads nothing and changes nothing.
    pub fn get<const INDEX: usize>(&self) {
    }
}

/// A shader over the uniforms `US`.
pub struct Shader<US>(PhantomData<US>);

/// The uniforms that a shader under construction still waits for.
pub struct UnInitUniforms<US>(US);

/// The uniforms that a shader under construction has been given.
pub struct InitUniforms<US>(US);

/// A shader under construction.
pub struct Builder<UUS, IUS>(UnInitUniforms<UUS>, InitUniforms<IUS>);

impl<UUS, IUS> Builder<UUS, IUS> {
    /// The uniforms still waited for.
    pub closed spec fn spec_uninit(self) -> UUS {
        self.0.0
    }

    /// The uniforms given so far.
    pub closed spec fn spec_init(self) -> IUS {
        self.1.0
    }
}

impl Builder<(), ()> {
    /// The builder that waits for nothing and has been given nothing.
    pub fn new() -> (r: Self)
        ensures
            r.spec_uninit() == (),
            r.spec_init() == (),
    {
        Self(UnInitUniforms(()), InitUniforms(()))
    }
}

} // verus!
