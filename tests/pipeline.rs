use posture_sense::engine::{LoadStatus, PoseEngine, PoseError};
use posture_sense::frame::{prepare, INPUT_LEN};
use posture_sense::landmark::{decode, Landmark};
use posture_sense::pixel::{convert, yuyv_to_rgb24, ConvertError};

#[test]
fn rgb_frame_passes_through_unchanged() {
    let bytes: Vec<u8> = (0..24u8).collect();
    let out = convert(bytes.clone(), 4, 2).unwrap();
    assert_eq!(out, bytes);
}

#[test]
fn yuyv_frame_converts_to_three_bytes_per_pixel() {
    let bytes: Vec<u8> = (0..16u8).map(|b| b.wrapping_mul(37)).collect();
    let out = convert(bytes, 4, 2).unwrap();
    assert_eq!(out.len(), 4 * 2 * 3);
}

#[test]
fn yuyv_neutral_chroma_gives_grey() {
    let out = convert(vec![100, 128, 200, 128], 2, 1).unwrap();
    assert_eq!(out, vec![100, 100, 100, 200, 200, 200]);
}

#[test]
fn yuyv_colour_transform_exact_values() {
    // R = 128 + 1.402*72 = 228.944, G = 128 + 0.344136*28 - 0.714136*72 = 86.218016,
    // B = 128 - 1.772*28 = 78.384; the second pixel has Y = 0.
    let out = convert(vec![128, 100, 0, 200], 2, 1).unwrap();
    assert_eq!(out, vec![228, 86, 78, 100, 0, 0]);
}

#[test]
fn yuyv_channels_clamp_to_byte_range() {
    let out = yuyv_to_rgb24(&vec![250, 0, 0, 255]);
    // R = 250 + 1.402*127 > 255; B = 250 - 1.772*128 = 23.184; pixel 1: Y = 0.
    assert_eq!(out[0], 255);
    assert_eq!(out[2], 23);
    assert_eq!(out[3], 178);
    assert_eq!(out[5], 0);
}

#[test]
fn yuyv_exact_integer_green_is_kept() {
    // G = 10 - 0.344136*(-28) - 0.714136*(-28)... with U = 228, V = 28:
    // 10 - 34.4136 + 71.4136 = 47 exactly.
    let out = yuyv_to_rgb24(&vec![10, 228, 10, 28]);
    assert_eq!(out[1], 47);
}

#[test]
fn mismatched_frame_is_refused() {
    let r = convert(vec![0; 10], 2, 2);
    assert_eq!(r, Err(ConvertError::BufferMismatch { expected_rgb: 12, expected_yuyv: 8, actual: 10 }));
}

#[test]
fn odd_yuyv_frame_is_refused() {
    let r = convert(vec![0; 6], 3, 1);
    assert_eq!(r, Err(ConvertError::UnpairedPixel { pixels: 3 }));
}

#[test]
fn empty_frame_converts_to_empty_image() {
    assert_eq!(convert(Vec::new(), 0, 480).unwrap(), Vec::<u8>::new());
}

#[test]
fn prepare_gives_fixed_input_size() {
    let rgb: Vec<u8> = (0..(6 * 4 * 3)).map(|i| (i * 7 % 256) as u8).collect();
    let input = prepare(&rgb, 6, 4);
    assert_eq!(input.len(), INPUT_LEN);
    assert_eq!(INPUT_LEN, 256 * 256 * 3);
    let scaled: Vec<f32> = input.iter().map(|&b| b as f32 / 255.0).collect();
    assert!(scaled.iter().all(|&v| (0.0..=1.0).contains(&v)));
}

#[test]
fn prepare_is_deterministic() {
    let rgb: Vec<u8> = (0..(5 * 3 * 3)).map(|i| (i * 11 % 256) as u8).collect();
    assert_eq!(prepare(&rgb, 5, 3), prepare(&rgb, 5, 3));
}

#[test]
fn prepare_keeps_a_uniform_colour() {
    let rgb: Vec<u8> = [10u8, 20, 30].iter().copied().cycle().take(8 * 8 * 3).collect();
    let input = prepare(&rgb, 8, 8);
    assert_eq!(&input[0..3], &[10, 20, 30]);
    assert_eq!(&input[INPUT_LEN - 3..], &[10, 20, 30]);
}

#[test]
fn decode_full_output_gives_33_landmarks() {
    let raw: Vec<f32> = (0..165).map(|i| i as f32).collect();
    let pose = decode(&raw);
    assert_eq!(pose.len(), 33);
    assert_eq!(pose[2], Landmark { x: 10.0, y: 11.0, z: 12.0, visibility: 13.0 });
    assert_eq!(pose[32].visibility, 163.0);
}

#[test]
fn decode_truncated_output_gives_prefix() {
    let raw: Vec<f32> = vec![0.5; 5 * 7 + 3];
    assert_eq!(decode(&raw).len(), 7);
    let raw: Vec<f32> = vec![0.5; 5 * 7 + 4];
    assert_eq!(decode(&raw).len(), 8);
    assert_eq!(decode::<f32>(&Vec::new()).len(), 0);
    assert_eq!(decode(&vec![1.0f32; 3]).len(), 0);
}

#[test]
fn decode_ignores_values_past_the_pose() {
    let raw: Vec<u16> = (0..400).collect();
    assert_eq!(decode(&raw).len(), 33);
}

#[derive(Debug, Clone, PartialEq)]
struct FakeModel {
    runs: u32,
}

#[test]
fn infer_before_load_fails() {
    let mut engine: PoseEngine<FakeModel> = PoseEngine::new();
    let r = engine.infer(vec![0; 12], 2, 2, |m, _input| (m, Ok(vec![0.0f32; 165])));
    assert!(matches!(r, Err(PoseError::ModelNotLoaded)));
    assert!(!engine.is_loaded());
}

#[test]
fn load_model_twice_loads_once() {
    let mut engine: PoseEngine<FakeModel> = PoseEngine::new();
    let mut loads = 0;
    let first = engine.load_model(|| {
        loads += 1;
        Ok(FakeModel { runs: 0 })
    });
    assert_eq!(first.unwrap(), LoadStatus::Loaded);
    let second = engine.load_model(|| {
        loads += 1;
        Ok(FakeModel { runs: 0 })
    });
    assert_eq!(second.unwrap(), LoadStatus::AlreadyLoaded);
    assert_eq!(loads, 1);
    assert!(engine.is_loaded());
}

#[test]
fn failed_load_reports_runtime_message() {
    let mut engine: PoseEngine<FakeModel> = PoseEngine::new();
    let r = engine.load_model(|| Err("corrupt file".to_string()));
    assert!(matches!(r, Err(PoseError::ModelLoad(ref m)) if m == "corrupt file"));
    assert!(!engine.is_loaded());
}

#[test]
fn infer_runs_the_pipeline() {
    let mut engine: PoseEngine<FakeModel> = PoseEngine::new();
    engine.load_model(|| Ok(FakeModel { runs: 0 })).unwrap();
    let mut seen = 0;
    let pose = engine
        .infer(vec![100, 128, 200, 128], 2, 1, |mut m: FakeModel, input: Vec<u8>| {
            seen = input.len();
            m.runs += 1;
            (m, Ok((0..165).map(|i| i as f32 / 100.0).collect::<Vec<f32>>()))
        })
        .unwrap();
    assert_eq!(seen, INPUT_LEN);
    assert_eq!(pose.len(), 33);
    assert_eq!(pose[1].x, 0.05);
    let again = engine.infer(vec![7; 12], 2, 2, |m: FakeModel, _input| {
        let runs = m.runs;
        (m, Ok(vec![runs as f32; 10]))
    });
    assert_eq!(again.unwrap(), vec![Landmark { x: 1.0, y: 1.0, z: 1.0, visibility: 1.0 }; 2]);
}

#[test]
fn infer_refuses_bad_frame_and_keeps_model() {
    let mut engine: PoseEngine<FakeModel> = PoseEngine::new();
    engine.load_model(|| Ok(FakeModel { runs: 0 })).unwrap();
    let r = engine.infer(vec![0; 5], 2, 2, |m, _input| (m, Ok(vec![0.0f32; 165])));
    assert!(matches!(
        r,
        Err(PoseError::Frame(ConvertError::BufferMismatch { expected_rgb: 12, expected_yuyv: 8, actual: 5 }))
    ));
    assert!(engine.is_loaded());
}

#[test]
fn infer_reports_runtime_failure() {
    let mut engine: PoseEngine<FakeModel> = PoseEngine::new();
    engine.load_model(|| Ok(FakeModel { runs: 0 })).unwrap();
    let r = engine.infer(vec![0; 12], 2, 2, |m, _input| (m, Err::<Vec<f32>, String>("bad shape".to_string())));
    assert!(matches!(r, Err(PoseError::Inference(ref m)) if m == "bad shape"));
    assert!(engine.is_loaded());
}
