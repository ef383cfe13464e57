use shadertoy::glsl_graph::{BaseSphere, Block, Dimension, DimensionMismatch, GlslBLock, GlslIn, GlslOut};
use std::rc::Rc;

fn input(name: &str) -> Rc<Block> {
    Rc::new(Block::In(GlslIn::new(name)))
}

#[test]
fn graph_emission_of_output_sphere_input() {
    let sphere = BaseSphere::new(input("fragCoord"));
    let out = GlslOut::new(Rc::new(Block::Sphere(sphere)));
    assert_eq!(out.glsl_code(), "fragColor = length(fragCoord) - 2.0;");
}

#[test]
fn input_emits_the_bare_identifier() {
    assert_eq!(GlslIn::new("iTime").glsl_code(), "iTime");
    assert_eq!(GlslIn::new("").glsl_code(), "");
}

#[test]
fn sphere_emits_length_minus_radius() {
    let sphere = BaseSphere::new(input("p"));
    assert_eq!(sphere.glsl_code(), "length(p) - 2.0");
}

#[test]
fn output_emits_an_assignment_to_frag_color() {
    let out = GlslOut::new(input("vec4(1,0,0,1)"));
    assert_eq!(out.glsl_code(), "fragColor = vec4(1,0,0,1);");
}

#[test]
fn nested_spheres_nest_their_text() {
    let inner = BaseSphere::new(input("p"));
    let outer = BaseSphere::new(Rc::new(Block::Sphere(inner)));
    assert_eq!(outer.glsl_code(), "length(length(p) - 2.0) - 2.0");
}

#[test]
fn emission_is_deterministic() {
    let build = || {
        let sphere = BaseSphere::new(input("fragCoord"));
        GlslOut::new(Rc::new(Block::Sphere(sphere)))
    };
    let first = build();
    let second = build();
    assert_eq!(first.glsl_code(), second.glsl_code());
    assert_eq!(first.glsl_code(), first.glsl_code());
    assert_eq!(first.glsl_code().as_bytes(), second.glsl_code().as_bytes());
}

#[test]
fn a_shared_block_emits_the_same_as_two_copies() {
    let shared = input("uv");
    let one = BaseSphere::new(shared.clone());
    let two = BaseSphere::new(shared.clone());
    let copy = BaseSphere::new(input("uv"));
    assert_eq!(one.glsl_code(), two.glsl_code());
    assert_eq!(one.glsl_code(), copy.glsl_code());
    assert_eq!(shared.glsl_code(), "uv");
}

#[test]
fn block_methods_agree_with_the_kind_inside() {
    let sphere = Block::Sphere(BaseSphere::new(input("p")));
    assert_eq!(sphere.glsl_code(), "length(p) - 2.0");
    assert_eq!(sphere.output_dims(), Dimension::D1);
    assert_eq!(sphere.inputs_dims(), vec![Dimension::D3]);
    assert_eq!(sphere.inputs().len(), 1);
    let out = Block::Out(GlslOut::new(input("c")));
    assert_eq!(out.glsl_code(), "fragColor = c;");
    assert_eq!(out.output_dims(), Dimension::D4);
    assert_eq!(out.inputs_dims(), vec![Dimension::D4]);
    let name = Block::In(GlslIn::new("n"));
    assert_eq!(name.glsl_code(), "n");
    assert_eq!(name.output_dims(), Dimension::D4);
    assert_eq!(name.inputs_dims(), vec![]);
    assert!(name.inputs().is_empty());
}

#[test]
fn declared_dimensions_of_each_kind() {
    let sphere = BaseSphere::new(input("p"));
    assert_eq!(sphere.inputs_dims(), vec![Dimension::D3]);
    assert_eq!(sphere.output_dims(), Dimension::D1);
    let out = GlslOut::new(input("c"));
    assert_eq!(out.inputs_dims(), vec![Dimension::D4]);
    assert_eq!(out.output_dims(), Dimension::D4);
    let name = GlslIn::new("x");
    assert_eq!(name.inputs_dims(), vec![]);
    assert_eq!(name.output_dims(), Dimension::D4);
}

#[test]
fn every_block_has_one_dimension_per_input() {
    let sphere = BaseSphere::new(input("p"));
    assert_eq!(sphere.inputs().len(), sphere.inputs_dims().len());
    let out = GlslOut::new(input("c"));
    assert_eq!(out.inputs().len(), out.inputs_dims().len());
    let name = GlslIn::new("x");
    assert_eq!(name.inputs().len(), name.inputs_dims().len());
}

#[test]
fn inputs_are_shared_with_the_graph() {
    let fed = input("p");
    let sphere = BaseSphere::new(fed.clone());
    assert_eq!(Rc::strong_count(&fed), 2);
    let inputs = sphere.inputs();
    assert_eq!(inputs.len(), 1);
    assert!(Rc::ptr_eq(&inputs[0], &fed));
    assert_eq!(Rc::strong_count(&fed), 3);
    assert_eq!(inputs[0].glsl_code(), "p");

    let out = GlslOut::new(Rc::new(Block::Sphere(sphere)));
    let inputs = out.inputs();
    assert_eq!(inputs.len(), 1);
    assert_eq!(inputs[0].glsl_code(), "length(p) - 2.0");
    assert!(GlslIn::new("x").inputs().is_empty());
}

#[test]
fn output_of_an_input_is_well_typed() {
    let out = GlslOut::new(input("color"));
    assert_eq!(out.check_dimensions(), Ok(()));
    assert_eq!(GlslIn::new("x").check_dimensions(), Ok(()));
    let twice = GlslOut::new(Rc::new(Block::Out(GlslOut::new(input("color")))));
    assert_eq!(twice.check_dimensions(), Ok(()));
}

#[test]
fn sphere_of_a_four_component_input_is_a_mismatch() {
    let sphere = BaseSphere::new(input("fragCoord"));
    assert_eq!(
        sphere.check_dimensions(),
        Err(DimensionMismatch { expected: Dimension::D3, found: Dimension::D4 })
    );
}

#[test]
fn the_innermost_mismatch_is_reported_first() {
    let sphere = BaseSphere::new(input("fragCoord"));
    let out = GlslOut::new(Rc::new(Block::Sphere(sphere)));
    assert_eq!(
        out.check_dimensions(),
        Err(DimensionMismatch { expected: Dimension::D3, found: Dimension::D4 })
    );
    assert_eq!(
        Block::Out(out).check_dimensions(),
        Err(DimensionMismatch { expected: Dimension::D3, found: Dimension::D4 })
    );
}

#[test]
fn a_sphere_is_never_fed_three_components() {
    let inner = BaseSphere::new(input("p"));
    let outer = BaseSphere::new(Rc::new(Block::Out(GlslOut::new(input("c")))));
    assert_eq!(
        inner.check_dimensions(),
        Err(DimensionMismatch { expected: Dimension::D3, found: Dimension::D4 })
    );
    assert_eq!(
        outer.check_dimensions(),
        Err(DimensionMismatch { expected: Dimension::D3, found: Dimension::D4 })
    );
    let out_of_out_of_sphere = GlslOut::new(Rc::new(Block::Sphere(BaseSphere::new(Rc::new(
        Block::Out(GlslOut::new(input("c"))),
    )))));
    assert_eq!(
        out_of_out_of_sphere.check_dimensions(),
        Err(DimensionMismatch { expected: Dimension::D3, found: Dimension::D4 })
    );
}

#[test]
fn a_mismatch_does_not_stop_emission() {
    let sphere = BaseSphere::new(input("fragCoord"));
    let out = GlslOut::new(Rc::new(Block::Sphere(sphere)));
    assert!(out.check_dimensions().is_err());
    assert_eq!(out.glsl_code(), "fragColor = length(fragCoord) - 2.0;");
}

#[test]
fn dimension_counts_components() {
    assert_eq!(Dimension::D1.count(), 1);
    assert_eq!(Dimension::D2.count(), 2);
    assert_eq!(Dimension::D3.count(), 3);
    assert_eq!(Dimension::D4.count(), 4);
}
