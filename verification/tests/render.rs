use valora::composition::{Composition, Layer, LayerInput};
use valora::errors::Error;
use valora::geom::{Color, Ellipse, Point, Scalar, Shape};
use valora::gpu::render::{
    Buffer, BufferResources, BufferSpec, DrawCtx, DrawStep, Filter, GpuLayer, LayerResources,
    Render, RenderResources, RenderSpec, TextureSpec,
};
use valora::gpu::shaders::{
    FramePredicate, GpuShader, Mipmaps, Shader, Texture, TextureFormat, TextureSource,
};
use valora::gpu::{Factory, GpuMesh};
use valora::mesh::Mesh;
use valora::tween::Tween;

type Colorer = fn(Point) -> Color;

fn scalar(value: f32) -> Scalar {
    Scalar::from_bits(value.to_bits())
}

fn number(scalar: Scalar) -> f32 {
    f32::from_bits(scalar.to_bits())
}

fn circle(radius: f32) -> Mesh<Colorer> {
    Mesh::new(Shape::Ellipse(Ellipse {
        center: Point::new(scalar(0.5), scalar(0.5)),
        width: scalar(radius),
        height: None,
        rotation: scalar(0.0),
        tolerance: None,
    }))
}

fn gpu_mesh(id: u32) -> GpuMesh {
    GpuMesh { id, scale: scalar(1.0) }
}

fn uploaded(id: u32) -> LayerResources {
    LayerResources { texture: None, mesh: Ok(gpu_mesh(id)) }
}

/// A render target as the buffer asks for it.
const fn target(id: u32, width: u32, height: u32) -> Texture {
    Texture {
        id,
        width,
        height,
        format: TextureFormat::F32F32F32F32,
        mipmaps: Mipmaps::AutoGenerated,
    }
}

/// An uploaded image.
const fn image(id: u32, width: u32, height: u32) -> Texture {
    Texture { id, width, height, format: TextureFormat::U8U8U8U8, mipmaps: Mipmaps::NoMipmap }
}

const FRONT: Texture = target(1, 640, 480);
const BACK: Texture = target(2, 640, 480);

fn targets() -> BufferResources {
    BufferResources { front: Ok(FRONT), back: Ok(BACK), frame: Ok(gpu_mesh(100)) }
}

fn buffer() -> Buffer {
    Buffer::produce(BufferSpec { width: 640, height: 480 }, targets()).unwrap()
}

fn session(composition: Composition<Colorer>, layers: Vec<LayerResources>) -> Render<Colorer> {
    Render::produce(
        RenderSpec { width: 640, height: 480, composition },
        RenderResources { layers, buffer: targets() },
    )
    .unwrap()
}

/// Runs a frame to its end, with a GPU that never fails, and collects the
/// steps.
fn run<'a>(render: &'a Render<Colorer>, frame: usize) -> Vec<DrawStep<'a>> {
    let mut steps = Vec::new();
    let mut at = 0;
    loop {
        let step = render.render(frame, at, Ok(())).unwrap();
        let done = matches!(step, DrawStep::Present(_));
        steps.push(step);
        if done {
            return steps;
        }
        at += 1;
    }
}

fn drawn_meshes(steps: &[DrawStep]) -> Vec<u32> {
    let mut ids = Vec::new();
    for step in steps {
        if let DrawStep::Draw { mesh, .. } = step {
            ids.push(mesh.id);
        }
    }
    ids
}

#[test]
fn gpu_layer_of_a_bare_mesh_uses_the_default_shader() {
    let layer = GpuLayer::produce(Layer::Mesh(circle(1.0)), uploaded(7)).unwrap();
    assert_eq!(layer.src, circle(1.0));
    assert_eq!(layer.shader, GpuShader::Default);
    assert_eq!(layer.cached_mesh, gpu_mesh(7));
}

#[test]
fn gpu_layer_realizes_the_shader_of_the_layer() {
    let texture = image(40, 8, 8);
    let layer = GpuLayer::produce(
        Layer::ShadedMesh {
            shader: Shader::Texture(TextureSource { id: 3 }).once(2),
            mesh: circle(1.0),
        },
        LayerResources { texture: Some(Ok(texture)), mesh: Ok(gpu_mesh(7)) },
    )
    .unwrap();
    assert_eq!(
        layer.shader,
        GpuShader::Intermittent {
            src: Box::new(GpuShader::Texture(texture)),
            predicate: FramePredicate { frame: 2 },
        }
    );
    assert_eq!(layer.src, circle(1.0));
}

#[test]
fn gpu_layer_fails_on_the_shader_before_the_mesh() {
    let layer: Layer<Colorer> =
        Layer::ShadedMesh { shader: Shader::Texture(TextureSource { id: 3 }), mesh: circle(1.0) };
    assert_eq!(
        GpuLayer::produce(
            layer,
            LayerResources { texture: Some(Err(Error::Allocation)), mesh: Err(Error::Tessellation) },
        ),
        Err(Error::Allocation)
    );
    assert_eq!(
        GpuLayer::produce(
            Layer::Mesh(circle(1.0)),
            LayerResources { texture: None, mesh: Err(Error::Tessellation) },
        ),
        Err(Error::Tessellation)
    );
}

#[test]
fn gpu_layer_step_writes_the_scale_of_the_frame() {
    let mesh = circle(1.0).with_scale(Tween::Sampled(vec![scalar(1.0), scalar(1.5), scalar(2.0)]));
    let layer = GpuLayer::produce(Layer::Mesh(mesh), uploaded(7)).unwrap();
    let layer = layer.step(1).unwrap();
    assert_eq!(number(layer.cached_mesh.scale), 1.5);
    assert_eq!(layer.cached_mesh.id, 7);
    let layer = layer.step(2).unwrap();
    assert_eq!(number(layer.cached_mesh.scale), 2.0);
    let layer = layer.step(0).unwrap();
    assert_eq!(number(layer.cached_mesh.scale), 1.0);
    assert_eq!(layer.shader, GpuShader::Default);
}

#[test]
fn gpu_layer_renders_its_shader_and_mesh() {
    let layer = GpuLayer::produce(Layer::Mesh(circle(1.0)), uploaded(7)).unwrap();
    let (shader, mesh) = layer.render();
    assert_eq!(*shader, GpuShader::Default);
    assert_eq!(*mesh, gpu_mesh(7));
}

#[test]
fn buffer_targets_are_float_textures_with_mipmaps_cleared_transparent() {
    let spec = BufferSpec { width: 640, height: 480 };
    assert_eq!(
        spec.target(),
        TextureSpec {
            width: 640,
            height: 480,
            format: TextureFormat::F32F32F32F32,
            mipmaps: Mipmaps::AutoGenerated,
            clear: Color::transparent(),
        }
    );
}

#[test]
fn buffer_front_has_the_size_asked_for() {
    for (width, height) in [(640u32, 480u32), (1, 1), (1024, 512), (3, 4000)] {
        let made = Buffer::produce(
            BufferSpec { width, height },
            BufferResources {
                front: Ok(target(5, width, height)),
                back: Ok(target(6, width, height)),
                frame: Ok(gpu_mesh(1)),
            },
        )
        .unwrap();
        assert_eq!(made.front(), target(5, width, height));
        assert_eq!((made.front().width, made.front().height), (width, height));
        assert_eq!(made.back(), target(6, width, height));
    }
}

#[test]
fn buffer_refuses_targets_of_another_size() {
    let spec = BufferSpec { width: 640, height: 480 };
    let narrow = target(2, 639, 480);
    let short = target(2, 640, 479);
    assert_eq!(
        Buffer::produce(spec, BufferResources { back: Ok(narrow), ..targets() }),
        Err(Error::Allocation)
    );
    assert_eq!(
        Buffer::produce(spec, BufferResources { back: Ok(short), ..targets() }),
        Err(Error::Allocation)
    );
    assert_eq!(
        Buffer::produce(
            spec,
            BufferResources { front: Ok(target(1, 480, 640)), ..targets() }
        ),
        Err(Error::Allocation)
    );
}

#[test]
fn buffer_refuses_one_texture_in_both_roles() {
    assert_eq!(
        Buffer::produce(
            BufferSpec { width: 640, height: 480 },
            BufferResources { back: Ok(FRONT), ..targets() }
        ),
        Err(Error::Allocation)
    );
}

#[test]
fn buffer_fails_as_the_first_allocation_that_failed() {
    let spec = BufferSpec { width: 640, height: 480 };
    assert_eq!(
        Buffer::produce(
            spec,
            BufferResources {
                front: Err(Error::Allocation),
                back: Err(Error::Draw),
                frame: Err(Error::Tessellation),
            }
        ),
        Err(Error::Allocation)
    );
    assert_eq!(
        Buffer::produce(
            spec,
            BufferResources { front: Ok(FRONT), back: Err(Error::Draw), frame: Err(Error::Tessellation) }
        ),
        Err(Error::Draw)
    );
    assert_eq!(
        Buffer::produce(
            spec,
            BufferResources { front: Ok(FRONT), back: Ok(BACK), frame: Err(Error::Tessellation) }
        ),
        Err(Error::Tessellation)
    );
    assert_eq!(
        Buffer::produce(
            spec,
            BufferResources { front: Ok(FRONT), back: Ok(FRONT), frame: Err(Error::Tessellation) }
        ),
        Err(Error::Tessellation)
    );
}

#[test]
fn blitter_samples_the_front_target_on_the_frame_mesh() {
    let buffer = buffer();
    let cmds = buffer.blitter();
    assert_eq!(cmds.len(), 1);
    assert_eq!(*cmds[0].0, GpuShader::Texture(FRONT));
    assert_eq!(*cmds[0].1, gpu_mesh(100));
}

#[test]
fn swap_exchanges_the_roles() {
    let swapped = buffer().swap();
    assert_eq!(swapped.front(), BACK);
    assert_eq!(swapped.back(), FRONT);
    let cmds = swapped.blitter();
    assert_eq!(*cmds[0].0, GpuShader::Texture(BACK));
    assert_eq!(*cmds[0].1, gpu_mesh(100));
    let back_again = buffer().swap().swap();
    assert_eq!(back_again, buffer());
}

#[test]
fn draw_walks_the_commands_in_order() {
    let buffer = buffer();
    let first = (GpuShader::Default, gpu_mesh(10));
    let second = (GpuShader::Texture(image(9, 2, 2)), gpu_mesh(11));
    let ctx = DrawCtx { frame: 4, cmds: vec![(&first.0, &first.1), (&second.0, &second.1)] };
    let copy = DrawStep::Fill { from: FRONT, to: BACK, filter: Filter::Linear };
    assert_eq!(
        buffer.draw(&ctx, 0, Ok(())),
        Ok(DrawStep::Draw {
            shader: &first.0,
            mesh: &first.1,
            frame: 4,
            target: FRONT,
            secondary: BACK
        })
    );
    assert_eq!(buffer.draw(&ctx, 1, Ok(())), Ok(copy));
    assert_eq!(
        buffer.draw(&ctx, 2, Ok(())),
        Ok(DrawStep::Draw {
            shader: &second.0,
            mesh: &second.1,
            frame: 4,
            target: FRONT,
            secondary: BACK
        })
    );
    assert_eq!(
        buffer.draw(&ctx, 3, Ok(())),
        Ok(DrawStep::Fill { from: FRONT, to: BACK, filter: Filter::Linear })
    );
    assert_eq!(buffer.draw(&ctx, 4, Ok(())), Ok(DrawStep::Present(buffer.blitter())));
    assert_eq!(buffer.draw(&ctx, 5, Ok(())), Ok(DrawStep::Present(buffer.blitter())));
    assert_eq!(buffer.draw(&ctx, usize::MAX, Ok(())), Ok(DrawStep::Present(buffer.blitter())));
}

#[test]
fn draw_with_nothing_to_draw_presents_at_once() {
    let buffer = buffer();
    let ctx = DrawCtx { frame: 0, cmds: Vec::new() };
    assert_eq!(buffer.draw(&ctx, 0, Ok(())), Ok(DrawStep::Present(buffer.blitter())));
}

#[test]
fn draw_skips_a_shader_that_is_gated_off() {
    let buffer = buffer();
    let gated = (
        GpuShader::Intermittent {
            src: Box::new(GpuShader::Default),
            predicate: FramePredicate { frame: 6 },
        },
        gpu_mesh(10),
    );
    let off = DrawCtx { frame: 5, cmds: vec![(&gated.0, &gated.1)] };
    assert_eq!(buffer.draw(&off, 0, Ok(())), Ok(DrawStep::Skip));
    assert_eq!(
        buffer.draw(&off, 1, Ok(())),
        Ok(DrawStep::Fill { from: FRONT, to: BACK, filter: Filter::Linear })
    );
    let on = DrawCtx { frame: 6, cmds: vec![(&gated.0, &gated.1)] };
    assert_eq!(
        buffer.draw(&on, 0, Ok(())),
        Ok(DrawStep::Draw {
            shader: &gated.0,
            mesh: &gated.1,
            frame: 6,
            target: FRONT,
            secondary: BACK
        })
    );
}

#[test]
fn draw_stops_at_the_first_failure() {
    let buffer = buffer();
    let first = (GpuShader::Default, gpu_mesh(10));
    let ctx = DrawCtx { frame: 4, cmds: vec![(&first.0, &first.1)] };
    for at in [0usize, 1, 2, 3] {
        assert_eq!(buffer.draw(&ctx, at, Err(Error::Draw)), Err(Error::Draw));
        assert_eq!(buffer.draw(&ctx, at, Err(Error::Allocation)), Err(Error::Allocation));
    }
}

#[test]
fn draw_never_reads_what_it_writes() {
    let buffer = buffer();
    let first = (GpuShader::Default, gpu_mesh(10));
    let ctx = DrawCtx { frame: 4, cmds: vec![(&first.0, &first.1)] };
    match buffer.draw(&ctx, 0, Ok(())).unwrap() {
        DrawStep::Draw { target, secondary, .. } => assert_ne!(target.id, secondary.id),
        other => panic!("the first step draws, it is not {:?}", other),
    }
    match buffer.draw(&ctx, 1, Ok(())).unwrap() {
        DrawStep::Fill { from, to, .. } => assert_ne!(from.id, to.id),
        other => panic!("the second step copies, it is not {:?}", other),
    }
}

#[test]
fn render_of_three_meshes_draws_three_times_in_add_order() {
    let composition = Composition::new()
        .add(circle(1.0))
        .add(vec![circle(2.0), circle(3.0)]);
    let render = session(composition, vec![uploaded(10), uploaded(11), uploaded(12)]);
    let cmds = render.cmds();
    assert_eq!(cmds.len(), 3);
    let ids: Vec<u32> = cmds.iter().map(|cmd| cmd.1.id).collect();
    assert_eq!(ids, vec![10, 11, 12]);
    for cmd in &cmds {
        assert_eq!(*cmd.0, GpuShader::Default);
    }

    let steps = run(&render, 0);
    assert_eq!(steps.len(), 7);
    assert_eq!(drawn_meshes(&steps), vec![10, 11, 12]);
    for (position, step) in steps.iter().enumerate() {
        match step {
            DrawStep::Draw { frame, target, secondary, .. } => {
                assert_eq!(position % 2, 0);
                assert_eq!(*frame, 0);
                assert_eq!((*target, *secondary), (FRONT, BACK));
            },
            DrawStep::Fill { from, to, filter } => {
                assert_eq!(position % 2, 1);
                assert_eq!((*from, *to, *filter), (FRONT, BACK, Filter::Linear));
            },
            DrawStep::Present(cmds) => {
                assert_eq!(position, 6);
                assert_eq!(cmds.len(), 1);
                assert_eq!(*cmds[0].0, GpuShader::Texture(FRONT));
                assert_eq!(*cmds[0].1, gpu_mesh(100));
            },
            DrawStep::Skip => panic!("no layer of this scene is gated"),
        }
    }
}

#[test]
fn render_keeps_the_mesh_of_each_layer() {
    let composition = Composition::new()
        .add(circle(1.0))
        .add(vec![circle(2.0), circle(3.0)]);
    let render = session(composition, vec![uploaded(10), uploaded(11), uploaded(12)]);
    let stepped = render.step(0).unwrap();
    let ids: Vec<u32> = stepped.cmds().iter().map(|cmd| cmd.1.id).collect();
    assert_eq!(ids, vec![10, 11, 12]);
}

#[test]
fn render_of_an_empty_composition_only_presents() {
    let render = session(Composition::new(), Vec::new());
    assert!(render.cmds().is_empty());
    let steps = run(&render, 3);
    assert_eq!(steps.len(), 1);
    assert!(matches!(steps[0], DrawStep::Present(_)));
}

#[test]
fn render_draws_a_frozen_layer_on_its_frame_only() {
    let composition = Composition::new()
        .add(circle(1.0))
        .add(Layer::once(circle(2.0), 3))
        .add(circle(3.0));
    let render = session(composition, vec![uploaded(10), uploaded(11), uploaded(12)]);
    for frame in 0usize..6 {
        let steps = run(&render, frame);
        assert_eq!(steps.len(), 7);
        if frame == 3 {
            assert_eq!(drawn_meshes(&steps), vec![10, 11, 12]);
        } else {
            assert_eq!(drawn_meshes(&steps), vec![10, 12]);
            assert_eq!(steps[2], DrawStep::Skip);
        }
        assert!(matches!(steps[3], DrawStep::Fill { .. }));
    }
}

#[test]
fn render_hands_back_the_failure_of_a_step() {
    let render = session(Composition::new().add(circle(1.0)), vec![uploaded(10)]);
    assert!(render.render(0, 0, Ok(())).is_ok());
    assert_eq!(render.render(0, 1, Err(Error::Draw)), Err(Error::Draw));
    assert_eq!(render.render(0, 2, Err(Error::Draw)), Err(Error::Draw));
}

#[test]
fn render_buffer_is_the_front_target() {
    let render = session(Composition::new(), Vec::new());
    assert_eq!(render.buffer(), FRONT);
    assert_eq!((render.buffer().width, render.buffer().height), (640, 480));
}

#[test]
fn step_twice_on_one_frame_gives_the_same_scales() {
    let grows = Tween::Sampled(vec![scalar(1.0), scalar(2.0), scalar(4.0)]);
    let composition = Composition::new()
        .add(circle(1.0).with_scale(grows))
        .add(circle(2.0).with_scale(Tween::Constant(scalar(0.5))))
        .add(circle(3.0));
    let render = session(composition, vec![uploaded(10), uploaded(11), uploaded(12)]);
    let once = render.step(2).unwrap();
    let scales_once: Vec<f32> = once.cmds().iter().map(|cmd| number(cmd.1.scale)).collect();
    assert_eq!(scales_once, vec![4.0, 0.5, 1.0]);
    let twice = once.step(2).unwrap();
    let scales_twice: Vec<f32> = twice.cmds().iter().map(|cmd| number(cmd.1.scale)).collect();
    assert_eq!(scales_twice, scales_once);
}

#[test]
fn step_depends_on_the_frame_not_on_the_steps_before() {
    let grows = Tween::Sampled(vec![scalar(1.0), scalar(2.0), scalar(4.0)]);
    let scene = || Composition::new().add(circle(1.0).with_scale(grows.clone()));
    let direct = session(scene(), vec![uploaded(10)]).step(1).unwrap();
    let wandering = session(scene(), vec![uploaded(10)])
        .step(2)
        .unwrap()
        .step(0)
        .unwrap()
        .step(1)
        .unwrap();
    assert_eq!(direct, wandering);
    assert_eq!(number(direct.cmds()[0].1.scale), 2.0);
}

#[test]
fn produce_fails_where_the_gpu_answered_for_another_scene() {
    let spec = RenderSpec {
        width: 640,
        height: 480,
        composition: Composition::new().add(circle(1.0)).add(circle(2.0)),
    };
    let gpu = RenderResources { layers: vec![uploaded(10)], buffer: targets() };
    assert_eq!(Render::produce(spec, gpu), Err(Error::Allocation));
    let spec: RenderSpec<Colorer> =
        RenderSpec { width: 640, height: 480, composition: Composition::new() };
    let gpu = RenderResources { layers: vec![uploaded(10)], buffer: targets() };
    assert_eq!(Render::produce(spec, gpu), Err(Error::Allocation));
}

#[test]
fn produce_fails_as_the_first_layer_that_failed() {
    let scene = || RenderSpec {
        width: 640,
        height: 480,
        composition: Composition::new()
            .add(circle(1.0))
            .add(circle(2.0))
            .add(circle(3.0)),
    };
    let failed = |error| LayerResources { texture: None, mesh: Err(error) };
    let gpu = RenderResources {
        layers: vec![uploaded(10), failed(Error::Tessellation), failed(Error::Draw)],
        buffer: BufferResources { front: Err(Error::Allocation), ..targets() },
    };
    assert_eq!(Render::produce(scene(), gpu), Err(Error::Tessellation));
    let gpu = RenderResources {
        layers: vec![failed(Error::Draw), failed(Error::Tessellation), uploaded(12)],
        buffer: targets(),
    };
    assert_eq!(Render::produce(scene(), gpu), Err(Error::Draw));
}

#[test]
fn produce_fails_as_the_buffer_where_the_layers_are_made() {
    let spec = RenderSpec {
        width: 640,
        height: 480,
        composition: Composition::new().add(circle(1.0)),
    };
    let gpu = RenderResources {
        layers: vec![uploaded(10)],
        buffer: BufferResources { frame: Err(Error::Allocation), ..targets() },
    };
    assert_eq!(Render::produce(spec, gpu), Err(Error::Allocation));
    let spec = RenderSpec {
        width: 320,
        height: 480,
        composition: Composition::new().add(circle(1.0)),
    };
    let gpu = RenderResources { layers: vec![uploaded(10)], buffer: targets() };
    assert_eq!(Render::produce(spec, gpu), Err(Error::Allocation));
}

#[test]
fn produce_of_a_textured_layer_needs_its_texture() {
    let scene = || RenderSpec {
        width: 640,
        height: 480,
        composition: Composition::<Colorer>::new()
            .add(LayerInput::Single(Layer::from(Shader::Texture(TextureSource { id: 1 })))),
    };
    let gpu = RenderResources { layers: vec![uploaded(10)], buffer: targets() };
    assert_eq!(Render::produce(scene(), gpu), Err(Error::Allocation));
    let texture = image(77, 4, 4);
    let gpu = RenderResources {
        layers: vec![LayerResources { texture: Some(Ok(texture)), mesh: Ok(gpu_mesh(10)) }],
        buffer: targets(),
    };
    let render = Render::produce(scene(), gpu).unwrap();
    assert_eq!(*render.cmds()[0].0, GpuShader::Texture(texture));
}

#[test]
fn pass_draws_first_and_copies_second() {
    let buffer = buffer();
    let cmd = (GpuShader::Default, gpu_mesh(10));
    assert_eq!(
        buffer.pass((&cmd.0, &cmd.1), 9, true),
        DrawStep::Draw { shader: &cmd.0, mesh: &cmd.1, frame: 9, target: FRONT, secondary: BACK }
    );
    assert_eq!(
        buffer.pass((&cmd.0, &cmd.1), 9, false),
        DrawStep::Fill { from: FRONT, to: BACK, filter: Filter::Linear }
    );
    let gated = (
        GpuShader::Intermittent {
            src: Box::new(GpuShader::Default),
            predicate: FramePredicate { frame: 1 },
        },
        gpu_mesh(10),
    );
    assert_eq!(buffer.pass((&gated.0, &gated.1), 9, true), DrawStep::Skip);
    assert_eq!(
        buffer.pass((&gated.0, &gated.1), 9, false),
        DrawStep::Fill { from: FRONT, to: BACK, filter: Filter::Linear }
    );
}

#[test]
fn render_decides_as_the_buffer_does_on_the_commands() {
    let composition = Composition::new()
        .add(circle(1.0))
        .add(Layer::once(circle(2.0), 1));
    let render = session(composition, vec![uploaded(10), uploaded(11)]);
    let buffer = buffer();
    for frame in 0usize..3 {
        let ctx = DrawCtx { frame, cmds: render.cmds() };
        for at in 0usize..7 {
            assert_eq!(render.render(frame, at, Ok(())), buffer.draw(&ctx, at, Ok(())));
        }
    }
}

#[test]
fn buffer_refuses_targets_stored_another_way() {
    let spec = BufferSpec { width: 640, height: 480 };
    let bytes = Texture { format: TextureFormat::U8U8U8U8, ..BACK };
    assert_eq!(
        Buffer::produce(spec, BufferResources { back: Ok(bytes), ..targets() }),
        Err(Error::Allocation)
    );
    let flat = Texture { mipmaps: Mipmaps::NoMipmap, ..FRONT };
    assert_eq!(
        Buffer::produce(spec, BufferResources { front: Ok(flat), ..targets() }),
        Err(Error::Allocation)
    );
    assert!(spec.target().is_met_by(&FRONT));
    assert!(!spec.target().is_met_by(&bytes));
    assert!(!spec.target().is_met_by(&flat));
    assert!(!spec.target().is_met_by(&target(1, 640, 481)));
}
