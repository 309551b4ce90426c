use crayon::handle::Handle;
use crayon::material::{Material, MaterialError, RenderShader, ShaderHandle};
use crayon::resource::{
    Comparison, CullFace, FrontFaceOrder, RenderState, UniformVariable, UniformVariableType,
};
use std::sync::Arc;

fn state() -> RenderState {
    RenderState {
        cull_face: CullFace::Nothing,
        front_face_order: FrontFaceOrder::CounterClockwise,
        depth_test: Comparison::LessOrEqual,
        depth_write: true,
        depth_write_offset: None,
        color_blend: None,
        color_write: (true, true, true, true),
    }
}

fn material() -> Material {
    Material::new(Arc::new(RenderShader {
        handle: ShaderHandle(Handle::new(3, 1)),
        render_state: state(),
        uniforms: vec![
            (b"u_Color".to_vec(), UniformVariableType::Vector4f),
            (b"u_Time".to_vec(), UniformVariableType::F32),
        ],
    }))
}

#[test]
fn material_knows_its_shader() {
    let material = material();
    assert_eq!(material.shader(), ShaderHandle(Handle::new(3, 1)));
    assert_eq!(material.render_state(), &state());
    assert!(material.has_uniform_variable("u_Color"));
    assert!(material.has_uniform_variable("u_Time"));
    assert!(!material.has_uniform_variable("u_Tim"));
    assert!(!material.has_uniform_variable(""));
}

#[test]
fn material_takes_values_of_the_declared_kind() {
    let mut material = material();
    assert_eq!(material.uniform_variable("u_Time"), None);
    assert_eq!(material.set_uniform_variable("u_Time", UniformVariable::F32(5)), Ok(()));
    assert_eq!(material.uniform_variable("u_Time"), Some(UniformVariable::F32(5)));
    assert_eq!(material.set_uniform_variable("u_Time", UniformVariable::F32(6)), Ok(()));
    assert_eq!(material.uniform_variable("u_Time"), Some(UniformVariable::F32(6)));
    assert_eq!(material.variables.len(), 1);
    assert_eq!(
        material.set_uniform_variable("u_Color", UniformVariable::Vector4f([1, 2, 3, 4])),
        Ok(())
    );
    assert_eq!(material.uniform_variable("u_Color"), Some(UniformVariable::Vector4f([1, 2, 3, 4])));
    assert_eq!(material.uniform_variable("u_Time"), Some(UniformVariable::F32(6)));
}

#[test]
fn material_refuses_undeclared_uniforms() {
    let mut material = material();
    assert_eq!(
        material.set_uniform_variable("u_Missing", UniformVariable::I32(1)),
        Err(MaterialError::UniformUndefined)
    );
    assert!(material.variables.is_empty());
}

#[test]
fn material_refuses_values_of_another_kind() {
    let mut material = material();
    assert_eq!(
        material.set_uniform_variable("u_Time", UniformVariable::I32(1)),
        Err(MaterialError::UniformTypeInvalid)
    );
    assert_eq!(
        material.set_uniform_variable("u_Color", UniformVariable::Vector3f([1, 2, 3])),
        Err(MaterialError::UniformTypeInvalid)
    );
    assert!(material.variables.is_empty());
}

#[test]
fn every_value_has_its_kind() {
    assert_eq!(UniformVariable::I32(0).variable_type(), UniformVariableType::I32);
    assert_eq!(UniformVariable::F32(0).variable_type(), UniformVariableType::F32);
    assert_eq!(UniformVariable::Vector2f([0; 2]).variable_type(), UniformVariableType::Vector2f);
    assert_eq!(UniformVariable::Vector3f([0; 3]).variable_type(), UniformVariableType::Vector3f);
    assert_eq!(UniformVariable::Vector4f([0; 4]).variable_type(), UniformVariableType::Vector4f);
    assert_eq!(UniformVariable::Matrix2f([[0; 2]; 2], false).variable_type(), UniformVariableType::Matrix2f);
    assert_eq!(UniformVariable::Matrix3f([[0; 3]; 3], true).variable_type(), UniformVariableType::Matrix3f);
    assert_eq!(UniformVariable::Matrix4f([[0; 4]; 4], false).variable_type(), UniformVariableType::Matrix4f);
}
