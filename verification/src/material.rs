use crate::handle::Handle;
use crate::named::{find_named, named_models, named_updated, named_value, set_named};
use crate::resource::{RenderState, UniformVariable, UniformVariableType};
use std::sync::Arc;
use vstd::prelude::*;
use vstd::string::StringSliceAdditionalSpecFns;

verus! {

#[derive(Clone, Copy, Debug, PartialEq, Eq, Structural, Hash)]
pub struct ShaderHandle(pub Handle);

#[derive(Clone, Copy, Debug, PartialEq, Eq, Structural, Hash)]
pub struct MaterialHandle(pub Handle);

/// A shader as materials see it: its handle, the state it draws with, and
/// the uniforms it declares, each with its kind.
#[derive(Debug)]
pub struct RenderShader {
    pub handle: ShaderHandle,
    pub render_state: RenderState,
    pub uniforms: Vec<(Vec<u8>, UniformVariableType)>,
}

/// Why a material refused a value.
#[derive(Clone, Copy, Debug, PartialEq, Eq, Structural, Hash)]
pub enum MaterialError {
    /// The shader declares no uniform of that name.
    UniformUndefined,
    /// The shader declares the uniform with another kind.
    UniformTypeInvalid,
}

/// A shader together with values for some of the uniforms it declares.
#[derive(Debug)]
pub struct Material {
    pub shader: Arc<RenderShader>,
    pub variables: Vec<(Vec<u8>, UniformVariable)>,
}

impl Material {
    /// The kind that the shader declares for the uniform `field`.
    pub open spec fn declared(&self, field: Seq<u8>) -> Option<UniformVariableType> {
        named_value(named_models(self.shader.uniforms@), field)
    }

    /// The value this material gives to the uniform `field`.
    pub open spec fn value(&self, field: Seq<u8>) -> Option<UniformVariable> {
        named_value(named_models(self.variables@), field)
    }

    /// A material of `shader` that gives no uniform a value.
    pub fn new(shader: Arc<RenderShader>) -> (material: Material)
        ensures
            material.shader == shader,
            material.variables@.len() == 0,
    {
        Material { shader, variables: Vec::new() }
    }

    /// The handle of the shader.
    pub fn shader(&self) -> (handle: ShaderHandle)
        ensures
            handle == self.shader.handle,
    {
        self.shader.handle
    }

    /// The state the shader draws with.
    pub fn render_state(&self) -> (state: &RenderState)
        ensures
            *state == self.shader.render_state,
    {
        &self.shader.render_state
    }

    /// Whether the shader declares a uniform `field`.
    pub fn has_uniform_variable(&self, field: &str) -> (has: bool)
        ensures
            has == self.declared(field.spec_bytes()) is Some,
    {
        find_named(&self.shader.uniforms, field.as_bytes()) < self.shader.uniforms.len()
    }

    /// Gives the uniform `field` the value `variable`. Fails, and changes
    /// nothing, if the shader declares no such uniform, or declares it with
    /// another kind than that of `variable`.
    pub fn set_uniform_variable(&mut self, field: &str, variable: UniformVariable) -> (r: Result<
        (),
        MaterialError,
    >)
        ensures
            match old(self).declared(field.spec_bytes()) {
                None => r == Err::<(), MaterialError>(MaterialError::UniformUndefined) && *final(self) == *old(self),
                Some(kind) => if kind != variable.spec_variable_type() {
                    r == Err::<(), MaterialError>(MaterialError::UniformTypeInvalid) && *final(self)
                        == *old(self)
                } else {
                    &&& r is Ok
                    &&& final(self).shader == old(self).shader
                    &&& named_models(final(self).variables@) == named_updated(
                        named_models(old(self).variables@),
                        field.spec_bytes(),
                        variable,
                    )
                },
            },
    {
        let at = find_named(&self.shader.uniforms, field.as_bytes());
        if at >= self.shader.uniforms.len() {
            return Err(MaterialError::UniformUndefined);
        }
        let declared = self.shader.uniforms[at].1;
        let given = variable.variable_type();
        if declared != given {
            return Err(MaterialError::UniformTypeInvalid);
        }
        set_named(&mut self.variables, field.as_bytes(), variable);
        Ok(())
    }

    /// The value this material gives to the uniform `field`, if it gives one.
    pub fn uniform_variable(&self, field: &str) -> (r: Option<UniformVariable>)
        ensures
            r == self.value(field.spec_bytes()),
    {
        let at = find_named(&self.variables, field.as_bytes());
        if at < self.variables.len() {
            Some(self.variables[at].1)
        } else {
            None
        }
    }
}

} // verus!
