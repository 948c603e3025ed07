use valora::composition::{Composition, Layer, LayerInput};
use valora::geom::{Color, Ellipse, Point, Polygon, Scalar, Shape};
use valora::gpu::shaders::{FramePredicate, Shader, TextureSource};
use valora::mesh::{DrawMode, Mesh};
use valora::tween::Tween;

type Colorer = fn(Point) -> Color;

fn scalar(value: f32) -> Scalar {
    Scalar::from_bits(value.to_bits())
}

fn red(_at: Point) -> Color {
    Color { r: scalar(1.0), g: scalar(0.0), b: scalar(0.0), a: scalar(1.0) }
}

/// A circle that can be told from the others by its radius.
fn circle(radius: f32) -> Mesh<Colorer> {
    Mesh::new(Shape::Ellipse(Ellipse {
        center: Point::new(scalar(0.5), scalar(0.5)),
        width: scalar(radius),
        height: None,
        rotation: scalar(0.0),
        tolerance: None,
    }))
}

fn unit_square() -> Vec<Point> {
    vec![
        Point::new(scalar(0.0), scalar(0.0)),
        Point::new(scalar(1.0), scalar(0.0)),
        Point::new(scalar(1.0), scalar(1.0)),
        Point::new(scalar(0.0), scalar(1.0)),
    ]
}

#[test]
fn new_composition_has_no_layers() {
    let composition: Composition<Colorer> = Composition::new();
    assert_eq!(composition.layers().len(), 0);
    let composition: Composition<Colorer> = Composition::default();
    assert_eq!(composition.layers().len(), 0);
}

#[test]
fn add_single_then_batch_keeps_count_and_order() {
    let composition = Composition::new()
        .add(circle(1.0))
        .add(vec![circle(2.0), circle(3.0)]);
    let layers = composition.layers();
    assert_eq!(layers.len(), 3);
    assert_eq!(layers[0], Layer::Mesh(circle(1.0)));
    assert_eq!(layers[1], Layer::Mesh(circle(2.0)));
    assert_eq!(layers[2], Layer::Mesh(circle(3.0)));
}

#[test]
fn add_mixed_inputs_counts_every_layer() {
    let composition = Composition::new()
        .add(LayerInput::Many(vec![Layer::Mesh(circle(1.0)), Layer::Mesh(circle(2.0))]))
        .add(LayerInput::Many(Vec::new()))
        .add(LayerInput::Single(Layer::Mesh(circle(3.0))))
        .add(LayerInput::from(vec![
            Layer::Mesh(circle(4.0)),
            Layer::Mesh(circle(5.0)),
            Layer::Mesh(circle(6.0)),
        ]));
    let layers = composition.layers();
    assert_eq!(layers.len(), 6);
    for (i, layer) in layers.iter().enumerate() {
        assert_eq!(*layer, Layer::Mesh(circle(i as f32 + 1.0)));
    }
}

#[test]
fn batch_is_the_same_as_adding_one_by_one() {
    let batched = Composition::new()
        .add(vec![circle(1.0), circle(2.0), circle(3.0)])
        .layers();
    let singly = Composition::new()
        .add(circle(1.0))
        .add(circle(2.0))
        .add(circle(3.0))
        .layers();
    assert_eq!(batched, singly);
}

#[test]
fn next_drains_a_batch_from_the_front() {
    let mut input: LayerInput<Colorer> =
        LayerInput::Many(vec![Layer::Mesh(circle(1.0)), Layer::Mesh(circle(2.0))]);
    assert_eq!(input.next(), Some(Layer::Mesh(circle(1.0))));
    assert_eq!(input.next(), Some(Layer::Mesh(circle(2.0))));
    assert_eq!(input.next(), None);
    assert_eq!(input.next(), None);
}

#[test]
fn next_yields_a_single_layer_once() {
    let mut input: LayerInput<Colorer> = LayerInput::Single(Layer::Mesh(circle(1.0)));
    assert_eq!(input.next(), Some(Layer::Mesh(circle(1.0))));
    assert_eq!(input, LayerInput::Many(Vec::new()));
    assert_eq!(input.next(), None);
}

#[test]
fn into_layers_keeps_order() {
    let input: LayerInput<Colorer> = vec![circle(1.0), circle(2.0)].into();
    assert_eq!(input.into_layers(), vec![Layer::Mesh(circle(1.0)), Layer::Mesh(circle(2.0))]);
    let input: LayerInput<Colorer> = Layer::Mesh(circle(7.0)).into();
    assert_eq!(input.into_layers(), vec![Layer::Mesh(circle(7.0))]);
}

#[test]
fn once_on_a_mesh_draws_on_its_frame_only() {
    let layers = Layer::once(circle(1.0), 5);
    assert_eq!(layers.len(), 1);
    let expected = Layer::ShadedMesh {
        shader: Shader::Intermittent {
            src: Box::new(Shader::Default),
            predicate: FramePredicate { frame: 5 },
        },
        mesh: circle(1.0),
    };
    assert_eq!(layers[0], expected);
    match &layers[0] {
        Layer::ShadedMesh { shader, .. } => {
            assert!(shader.is_active(5));
            for frame in [0usize, 1, 4, 6, 50, usize::MAX] {
                assert!(!shader.is_active(frame), "frame {}", frame);
            }
        },
        Layer::Mesh(_) => panic!("a frozen layer has a shader"),
    }
}

#[test]
fn once_wraps_every_layer_in_order() {
    let source = Shader::Texture(TextureSource { id: 9 });
    let input = LayerInput::Many(vec![
        Layer::Mesh(circle(1.0)),
        Layer::ShadedMesh { shader: source.clone(), mesh: circle(2.0) },
    ]);
    let layers = Layer::once(input, 3);
    assert_eq!(layers.len(), 2);
    assert_eq!(
        layers[0],
        Layer::ShadedMesh {
            shader: Shader::Intermittent {
                src: Box::new(Shader::Default),
                predicate: FramePredicate { frame: 3 },
            },
            mesh: circle(1.0),
        }
    );
    assert_eq!(
        layers[1],
        Layer::ShadedMesh {
            shader: Shader::Intermittent {
                src: Box::new(source),
                predicate: FramePredicate { frame: 3 },
            },
            mesh: circle(2.0),
        }
    );
}

#[test]
fn once_on_nothing_gives_nothing() {
    let layers: Vec<Layer<Colorer>> = Layer::once(LayerInput::Many(Vec::new()), 3);
    assert!(layers.is_empty());
}

#[test]
fn once_twice_on_different_frames_never_draws() {
    let first = Layer::once(circle(1.0), 2);
    let second = Layer::once(first, 4);
    match &second[0] {
        Layer::ShadedMesh { shader, .. } => {
            for frame in 0usize..8 {
                assert!(!shader.is_active(frame));
            }
        },
        Layer::Mesh(_) => panic!("a frozen layer has a shader"),
    }
    let again = Layer::once(Layer::once(circle(1.0), 4), 4);
    match &again[0] {
        Layer::ShadedMesh { shader, .. } => {
            assert!(shader.is_active(4));
            assert!(!shader.is_active(3));
        },
        Layer::Mesh(_) => panic!("a frozen layer has a shader"),
    }
}

#[test]
fn freeze_frame_keeps_the_mesh() {
    let mesh = circle(1.0).with_scale(Tween::Constant(scalar(2.0)));
    let expected = circle(1.0).with_scale(Tween::Constant(scalar(2.0)));
    let (shader, kept) = Layer::freeze_frame(Layer::Mesh(mesh), 0).resolve();
    assert_eq!(kept, expected);
    assert_eq!(
        shader,
        Shader::Intermittent {
            src: Box::new(Shader::Default),
            predicate: FramePredicate { frame: 0 },
        }
    );
}

#[test]
fn a_bare_mesh_is_a_mesh_layer() {
    let layer: Layer<Colorer> = circle(1.0).into();
    assert_eq!(layer, Layer::Mesh(circle(1.0)));
    let (shader, mesh) = layer.resolve();
    assert_eq!(shader, Shader::Default);
    assert_eq!(mesh, circle(1.0));
}

#[test]
fn a_bare_shader_draws_the_full_frame_rectangle() {
    let layer: Layer<Colorer> = Shader::Texture(TextureSource { id: 4 }).into();
    let (shader, mesh) = layer.resolve();
    assert_eq!(shader, Shader::Texture(TextureSource { id: 4 }));
    assert_eq!(mesh.shape, Shape::Polygon(Polygon::new(unit_square())));
    assert!(mesh.colorer.is_none());
    assert_eq!(mesh.draw_mode, DrawMode::Fill);
    assert_eq!(mesh.scale, Tween::Constant(scalar(1.0)));
}

#[test]
fn a_shader_and_a_mesh_are_a_shaded_layer() {
    let layer: Layer<Colorer> = (Shader::Default, circle(3.0)).into();
    assert_eq!(layer, Layer::ShadedMesh { shader: Shader::Default, mesh: circle(3.0) });
}

#[test]
fn solid_layer_adds_the_colored_frame_on_top() {
    let layers = Composition::new()
        .add(circle(1.0))
        .solid_layer(red as Colorer)
        .layers();
    assert_eq!(layers.len(), 2);
    assert_eq!(layers[0], Layer::Mesh(circle(1.0)));
    match &layers[1] {
        Layer::Mesh(mesh) => {
            assert_eq!(mesh.shape, Shape::Polygon(Polygon::new(unit_square())));
            assert_eq!(mesh.draw_mode, DrawMode::Fill);
            assert_eq!(mesh.scale, Tween::Constant(scalar(1.0)));
            let colorer = mesh.colorer.expect("the solid layer has a colorer");
            assert_eq!(colorer(Point::new(scalar(0.3), scalar(0.9))), red(Point::origin()));
        },
        Layer::ShadedMesh { .. } => panic!("a solid layer has no shader of its own"),
    }
}

#[test]
fn a_layer_can_be_read_without_giving_it_up() {
    let bare: Layer<Colorer> = Layer::Mesh(circle(1.0));
    assert_eq!(*bare.mesh_ref(), circle(1.0));
    assert_eq!(bare.shader_ref(), None);
    let shaded: Layer<Colorer> =
        Layer::ShadedMesh { shader: Shader::Default.once(2), mesh: circle(2.0) };
    assert_eq!(*shaded.mesh_ref(), circle(2.0));
    assert_eq!(shaded.shader_ref(), Some(&Shader::Default.once(2)));
}

#[test]
fn as_layers_reads_what_layers_gives_up() {
    let composition = Composition::new()
        .add(circle(1.0))
        .add(vec![circle(2.0), circle(3.0)]);
    let seen: Vec<Layer<Colorer>> =
        vec![Layer::Mesh(circle(1.0)), Layer::Mesh(circle(2.0)), Layer::Mesh(circle(3.0))];
    assert_eq!(*composition.as_layers(), seen);
    assert_eq!(composition.layers(), seen);
}

#[test]
fn add_takes_whatever_converts_into_layers() {
    let layers = Composition::<Colorer>::new()
        .add(circle(1.0))
        .add(Layer::Mesh(circle(2.0)))
        .add((Shader::Default.once(1), circle(3.0)))
        .add(Shader::Texture(TextureSource { id: 8 }))
        .add(LayerInput::Single(Layer::Mesh(circle(5.0))))
        .add(vec![Layer::Mesh(circle(6.0))])
        .layers();
    assert_eq!(layers.len(), 6);
    assert_eq!(layers[0], Layer::Mesh(circle(1.0)));
    assert_eq!(layers[1], Layer::Mesh(circle(2.0)));
    assert_eq!(
        layers[2],
        Layer::ShadedMesh { shader: Shader::Default.once(1), mesh: circle(3.0) }
    );
    assert_eq!(
        layers[3],
        Layer::ShadedMesh { shader: Shader::Texture(TextureSource { id: 8 }), mesh: Mesh::frame() }
    );
    assert_eq!(layers[4], Layer::Mesh(circle(5.0)));
    assert_eq!(layers[5], Layer::Mesh(circle(6.0)));
}

#[test]
fn inputs_convert_as_their_layers_do() {
    let from_shader: LayerInput<Colorer> = Shader::Default.into();
    assert_eq!(
        from_shader,
        LayerInput::Single(Layer::ShadedMesh { shader: Shader::Default, mesh: Mesh::frame() })
    );
    let from_pair: LayerInput<Colorer> = (Shader::Default, circle(1.0)).into();
    assert_eq!(
        from_pair,
        LayerInput::Single(Layer::ShadedMesh { shader: Shader::Default, mesh: circle(1.0) })
    );
    let from_mesh: LayerInput<Colorer> = circle(1.0).into();
    assert_eq!(from_mesh, LayerInput::Single(Layer::Mesh(circle(1.0))));
    let from_meshes: LayerInput<Colorer> = vec![circle(1.0), circle(2.0)].into();
    assert_eq!(
        from_meshes,
        LayerInput::Many(vec![Layer::Mesh(circle(1.0)), Layer::Mesh(circle(2.0))])
    );
}

#[test]
fn extend_adds_the_layers_of_an_input_in_order() {
    let layers = Composition::<Colorer>::new()
        .extend(LayerInput::Single(Layer::Mesh(circle(1.0))))
        .extend(LayerInput::Many(vec![Layer::Mesh(circle(2.0)), Layer::Mesh(circle(3.0))]))
        .extend(LayerInput::Many(Vec::new()))
        .layers();
    assert_eq!(
        layers,
        vec![Layer::Mesh(circle(1.0)), Layer::Mesh(circle(2.0)), Layer::Mesh(circle(3.0))]
    );
}

#[test]
fn freeze_is_once_on_an_input() {
    let input = || -> LayerInput<Colorer> {
        LayerInput::Many(vec![Layer::Mesh(circle(1.0)), Layer::Mesh(circle(2.0))])
    };
    let frozen = input().freeze(9);
    assert_eq!(frozen, Layer::once(input(), 9));
    assert_eq!(frozen.len(), 2);
    assert_eq!(frozen[0], Layer::freeze_frame(Layer::Mesh(circle(1.0)), 9));
    assert_eq!(frozen[1], Layer::freeze_frame(Layer::Mesh(circle(2.0)), 9));
}
