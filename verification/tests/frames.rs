use shadertoy::cache::{Diagnostic, Observed, ProgramCache, RefreshOutcome};
use shadertoy::fps::{FpsRing, CAPACITY, REPORT_EVERY};
use shadertoy::frame_loop::{clear_color, on_event, on_fault, worst, Action, Event, Exit, Fault, FrameStep};
use shadertoy::quad::{corners, CORNERS};
use shadertoy::shader_toy::program_input;
use shadertoy::source::{
    has_nul, FALLBACK_PATH, FRAGMENT_PRELUDE, POSITION_ATTRIBUTE, SHADER_PATH, VERTEX_SHADER_SRC,
};
use shadertoy::uniforms::{
    FrameContext, Uniform, UniformPack, UniformValue, FRAME, MICROS_PER_SECOND, RESOLUTION, TIME, TIME_DELTA,
};

#[test]
fn resize_shows_in_the_very_next_frame() {
    let mut pack = UniformPack::new();
    let before = pack.pack(0, 16_000, (800, 600));
    assert_eq!(before.res, (800, 600));
    let after = pack.pack(0, 32_000, (1024, 768));
    assert_eq!(after.res, (1024, 768));
    assert_eq!((after.res.0 as f32, after.res.1 as f32), (1024.0, 768.0));
}

#[test]
fn the_resolution_uniform_is_the_size_of_the_same_frame() {
    let mut pack = UniformPack::new();
    pack.pack(0, 16_000, (800, 600));
    let frame = pack.pack(0, 32_000, (1024, 768));
    let resolution: Vec<Uniform> =
        frame.uniforms().into_iter().filter(|uniform| uniform.name == "iResolution").collect();
    assert_eq!(
        resolution,
        vec![Uniform { name: "iResolution", value: UniformValue::Pixels { width: 1024, height: 768 } }]
    );
}

#[test]
fn the_uniforms_of_a_frame() {
    let mut pack = UniformPack::new();
    pack.pack(1, 0, (800, 600));
    let frame = pack.pack(2, 500_000, (640, 480));
    assert_eq!(
        frame.uniforms(),
        vec![
            Uniform { name: "iTime", value: UniformValue::Seconds { secs: 2, micros: 500_000 } },
            Uniform { name: "iResolution", value: UniformValue::Pixels { width: 640, height: 480 } },
            Uniform { name: "iTimeDelta", value: UniformValue::Seconds { secs: 0, micros: 1_500_000 } },
            Uniform { name: "iFrame", value: UniformValue::Count(1) },
        ]
    );
    match frame.uniforms()[0].value {
        UniformValue::Seconds { secs, micros } => {
            assert_eq!(secs as f32 + micros as f32 / MICROS_PER_SECOND as f32, 2.5);
        }
        other => panic!("unexpected: {:?}", other),
    }
}

#[test]
fn the_first_frame() {
    let mut pack = UniformPack::new();
    let frame = pack.pack(3, 250_000, (640, 480));
    assert_eq!(
        frame,
        FrameContext { secs: 3, subsec_micros: 250_000, delta_micros: 0, res: (640, 480), frame_index: 0 }
    );
}

#[test]
fn frames_are_counted_and_timed() {
    let mut pack = UniformPack::new();
    let first = pack.pack(0, 0, (1, 1));
    let second = pack.pack(0, 16_667, (1, 1));
    let third = pack.pack(1, 5, (1, 1));
    assert_eq!(first.frame_index, 0);
    assert_eq!(second.frame_index, 1);
    assert_eq!(third.frame_index, 2);
    assert_eq!(first.delta_micros, 0);
    assert_eq!(second.delta_micros, 16_667);
    assert_eq!(third.delta_micros, 1_000_005 - 16_667);
    assert_eq!((third.secs, third.subsec_micros), (1, 5));
}

#[test]
fn time_does_not_go_back() {
    let mut pack = UniformPack::new();
    let readings = [(0u64, 0u32), (0, 999_999), (1, 0), (1, 0), (2, 500_000), (100, 1)];
    let mut last = 0.0f32;
    let mut last_micros = 0u128;
    for (secs, micros) in readings {
        let frame = pack.pack(secs, micros, (800, 600));
        let total = frame.secs as u128 * 1_000_000 + frame.subsec_micros as u128;
        assert!(total >= last_micros);
        assert_eq!(frame.delta_micros as u128, total - last_micros);
        let time = frame.secs as f32 + frame.subsec_micros as f32 / MICROS_PER_SECOND as f32;
        assert!(time >= last);
        last = time;
        last_micros = total;
    }
}

#[test]
fn a_clock_that_goes_back_gives_no_negative_delta() {
    let mut pack = UniformPack::new();
    pack.pack(5, 0, (1, 1));
    let frame = pack.pack(4, 0, (1, 1));
    assert_eq!(frame.delta_micros, 0);
    assert_eq!(frame.secs, 4);
}

#[test]
fn a_delta_too_large_stops_at_the_largest() {
    let mut pack = UniformPack::new();
    pack.pack(0, 0, (1, 1));
    let frame = pack.pack(u64::MAX, 999_999, (1, 1));
    assert_eq!(frame.delta_micros, u64::MAX);
}

#[test]
fn uniform_names() {
    assert_eq!(TIME, "iTime");
    assert_eq!(RESOLUTION, "iResolution");
    assert_eq!(TIME_DELTA, "iTimeDelta");
    assert_eq!(FRAME, "iFrame");
    assert_eq!(MICROS_PER_SECOND, 1_000_000);
}

#[test]
fn events_and_what_follows() {
    assert_eq!(on_event(Event::CloseRequested), Action::Exit(Exit::WindowClosed));
    assert_eq!(on_event(Event::RedrawRequested), Action::Redraw);
    assert_eq!(on_event(Event::AboutToWait), Action::RequestRedraw);
    assert_eq!(on_event(Event::Other), Action::Continue);
}

#[test]
fn only_a_lost_context_ends_the_loop() {
    assert_eq!(on_fault(Fault::Draw), Action::Continue);
    assert_eq!(on_fault(Fault::Present), Action::Continue);
    assert_eq!(on_fault(Fault::ContextLost), Action::Exit(Exit::ContextLost));
}

#[test]
fn the_fault_that_a_frame_counts_as() {
    assert_eq!(worst(None, None), None);
    assert_eq!(worst(Some(Fault::Draw), None), Some(Fault::Draw));
    assert_eq!(worst(None, Some(Fault::Present)), Some(Fault::Present));
    assert_eq!(worst(Some(Fault::Draw), Some(Fault::Present)), Some(Fault::Draw));
    assert_eq!(worst(Some(Fault::Present), Some(Fault::Draw)), Some(Fault::Present));
    assert_eq!(worst(Some(Fault::Draw), Some(Fault::ContextLost)), Some(Fault::ContextLost));
    assert_eq!(worst(None, Some(Fault::ContextLost)), Some(Fault::ContextLost));
    assert_eq!(worst(Some(Fault::ContextLost), Some(Fault::Present)), Some(Fault::ContextLost));
    assert_eq!(worst(Some(Fault::ContextLost), None), Some(Fault::ContextLost));
    match worst(Some(Fault::Draw), Some(Fault::ContextLost)) {
        Some(fault) => assert_eq!(on_fault(fault), Action::Exit(Exit::ContextLost)),
        None => panic!("a fault was lost"),
    }
}

#[test]
fn exit_codes() {
    assert_eq!(Exit::WindowClosed.code(), 0);
    assert_ne!(Exit::FatalInit.code(), 0);
    assert_ne!(Exit::ContextLost.code(), 0);
    assert_eq!(Exit::FatalInit.code(), 1);
    assert_eq!(Exit::ContextLost.code(), 1);
}

#[test]
fn the_steps_of_a_redraw_in_order() {
    let mut steps = Vec::new();
    let mut step = Some(FrameStep::first());
    while let Some(current) = step {
        steps.push(current);
        step = current.next();
    }
    assert_eq!(
        steps,
        vec![
            FrameStep::Refresh,
            FrameStep::Uniforms,
            FrameStep::Clear,
            FrameStep::Draw,
            FrameStep::Present,
            FrameStep::Record,
        ]
    );
}

#[test]
fn the_background_is_opaque_blue() {
    assert_eq!(clear_color(), [0, 0, 1, 1]);
    let [r, g, b, a] = clear_color();
    assert_eq!((r as f32, g as f32, b as f32, a as f32), (0.0, 0.0, 1.0, 1.0));
}

#[test]
fn happy_path() {
    let red = "void main() { fragColor = vec4(1,0,0,1); }";
    let mut sink: Vec<Diagnostic> = Vec::new();
    let mut cache = ProgramCache::from_compiled("shader.frag", String::from(red), Ok(1u32)).unwrap();
    let mut pack = UniformPack::new();
    let mut ring = FpsRing::new();
    let mut frames = 0;
    for frame in 0..3u32 {
        assert_eq!(on_event(Event::AboutToWait), Action::RequestRedraw);
        assert_eq!(on_event(Event::RedrawRequested), Action::Redraw);
        let mut step = Some(FrameStep::first());
        while let Some(current) = step {
            match current {
                FrameStep::Refresh => {
                    let next = cache.observe("shader.frag", Ok(String::from(red)), &mut sink);
                    assert_eq!(next, Observed::Settled(RefreshOutcome::Unchanged));
                }
                FrameStep::Uniforms => {
                    let context = pack.pack(0, frame * 16_000, (1024, 768));
                    assert_eq!(context.frame_index, frame as i32);
                }
                FrameStep::Clear => assert_eq!(clear_color(), [0, 0, 1, 1]),
                FrameStep::Draw => assert_eq!(*cache.program(), 1),
                FrameStep::Present => frames += 1,
                FrameStep::Record => assert_eq!(ring.record(100), None),
            }
            step = current.next();
        }
    }
    assert_eq!(frames, 3);
    assert!(sink.is_empty());
    match on_event(Event::CloseRequested) {
        Action::Exit(exit) => assert_eq!(exit.code(), 0),
        other => panic!("unexpected: {:?}", other),
    }
}

#[test]
fn the_ring_reports_the_mean_at_its_cadence() {
    let mut ring = FpsRing::new();
    assert_eq!(ring.len(), 0);
    assert_eq!(ring.mean(), 0);
    for sample in 1..REPORT_EVERY {
        assert_eq!(ring.record(sample), None);
    }
    // 1 + 2 + ... + 60 = 1830, and 1830 / 60 = 30.
    assert_eq!(ring.record(REPORT_EVERY), Some(30));
    assert_eq!(ring.len(), 60);
    for _ in 1..REPORT_EVERY {
        assert_eq!(ring.record(0), None);
    }
    // 1830 over 120 durations.
    assert_eq!(ring.record(0), Some(15));
    assert_eq!(ring.mean(), 15);
}

#[test]
fn the_ring_keeps_the_newest_durations() {
    let mut ring = FpsRing::new();
    for _ in 0..CAPACITY {
        ring.record(1000);
    }
    assert_eq!(ring.len(), CAPACITY);
    assert_eq!(ring.mean(), 1000);
    for _ in 0..CAPACITY / 2 {
        ring.record(3000);
    }
    assert_eq!(ring.len(), CAPACITY);
    assert_eq!(ring.mean(), 2000);
    for _ in 0..CAPACITY / 2 {
        ring.record(3000);
    }
    assert_eq!(ring.len(), CAPACITY);
    assert_eq!(ring.mean(), 3000);
    ring.record(3256);
    assert_eq!(ring.mean(), 3001);
}

#[test]
fn the_mean_is_rounded_down_and_does_not_overflow() {
    let mut ring = FpsRing::new();
    ring.record(1);
    ring.record(2);
    assert_eq!(ring.mean(), 1);
    let mut ring = FpsRing::new();
    for _ in 0..CAPACITY + 10 {
        ring.record(u32::MAX);
    }
    assert_eq!(ring.mean(), u32::MAX);
    assert_eq!(ring.len(), 256);
}

#[test]
fn the_quad_is_a_strip_over_the_whole_screen() {
    assert_eq!(CORNERS, 4);
    assert_eq!(corners(), vec![(-1, -1), (1, -1), (-1, 1), (1, 1)]);
    assert_eq!(corners().len(), CORNERS);
    let as_floats: Vec<[f32; 2]> = corners().iter().map(|p| [p.0 as f32, p.1 as f32]).collect();
    assert_eq!(as_floats, vec![[-1.0, -1.0], [1.0, -1.0], [-1.0, 1.0], [1.0, 1.0]]);
}

#[test]
fn the_fixed_sources() {
    assert!(VERTEX_SHADER_SRC.contains("#version 140"));
    assert!(VERTEX_SHADER_SRC.contains("in vec2 i_position;"));
    assert!(VERTEX_SHADER_SRC.contains("out vec2 fragCoord;"));
    assert!(VERTEX_SHADER_SRC.contains("fragCoord = i_position;"));
    assert!(VERTEX_SHADER_SRC.contains("gl_Position = vec4(i_position, 0.0, 1.0);"));
    assert!(!has_nul(VERTEX_SHADER_SRC));
    assert!(FRAGMENT_PRELUDE.starts_with("#version 140"));
    assert!(FRAGMENT_PRELUDE.contains("uniform vec2  iResolution;"));
    assert!(FRAGMENT_PRELUDE.contains("uniform float iTime;"));
    assert!(FRAGMENT_PRELUDE.contains("in  vec2 fragCoord;"));
    assert!(FRAGMENT_PRELUDE.ends_with("out vec4 fragColor;\n"));
    assert!(!has_nul(FRAGMENT_PRELUDE));
    assert_eq!(POSITION_ATTRIBUTE, "i_position");
    assert_eq!(SHADER_PATH, "shader.frag");
    assert_eq!(FALLBACK_PATH, "shader_default.frag");
}

#[test]
fn nul_characters_are_found() {
    assert!(!has_nul(""));
    assert!(!has_nul("void main() {}"));
    assert!(has_nul("\0"));
    assert!(has_nul("void main() {}\0"));
    assert!(has_nul("void\0main"));
    assert!(!has_nul("caf\u{e9} 0"));
}

#[test]
fn the_build_of_a_program_is_fixed_but_for_the_fragment() {
    let fragment = "void main() { fragColor = vec4(1,0,0,1); }";
    let input = program_input(fragment);
    assert_eq!(input.vertex_shader, VERTEX_SHADER_SRC);
    assert_eq!(input.fragment_shader, fragment);
    assert_eq!(input.geometry_shader, None);
    assert_eq!(input.tessellation_control_shader, None);
    assert_eq!(input.tessellation_evaluation_shader, None);
    assert!(input.transform_feedback_varyings.is_none());
    assert!(input.outputs_srgb);
    assert!(!input.uses_point_size);
}
