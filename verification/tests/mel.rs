use shout_core::error::PipelineError;
use shout_core::mel::{assemble, pcm_to_mel_frames_flat, MelMatrix};

fn matrix(data: Vec<i32>, n_mels: usize) -> MelMatrix<i32> {
    MelMatrix::from_flat(data, n_mels).unwrap_or_else(|e| panic!("{:?}", e))
}

#[test]
fn a_flat_sequence_of_whole_frames_gets_its_dimensions() {
    let m = matrix((0..12).collect(), 4);
    assert_eq!(m.n_frames, 3);
    assert_eq!(m.n_mels, 4);
    assert_eq!(m.data, (0..12).collect::<Vec<i32>>());
    assert_eq!(m.data.len(), m.n_frames * m.n_mels);
}

#[test]
fn an_empty_sequence_is_a_matrix_without_frames() {
    let m = matrix(vec![], 80);
    assert_eq!(m.n_frames, 0);
    assert_eq!(m.n_mels, 80);
}

#[test]
fn a_remainder_is_an_internal_error() {
    let r = MelMatrix::from_flat(vec![0i32; 13], 4);
    assert!(matches!(r, Err(PipelineError::InconsistentMelLength)));
    let r = MelMatrix::from_flat(vec![0i32; 3], 4);
    assert!(matches!(r, Err(PipelineError::InconsistentMelLength)));
}

#[test]
fn the_band_index_varies_fastest() {
    let m = matrix((0..12).collect(), 4);
    assert_eq!(*m.at(0, 0), 0);
    assert_eq!(*m.at(0, 3), 3);
    assert_eq!(*m.at(1, 0), 4);
    assert_eq!(*m.at(2, 1), 9);
    assert_eq!(m.frame(0), &[0, 1, 2, 3]);
    assert_eq!(m.frame(2), &[8, 9, 10, 11]);
}

#[test]
fn frames_are_concatenated_in_frame_order() {
    let frames = vec![vec![1, 2, 3], vec![4, 5, 6], vec![7, 8, 9], vec![10, 11, 12]];
    let m = assemble(&frames, 3).unwrap_or_else(|e| panic!("{:?}", e));
    assert_eq!(m.data, (1..=12).collect::<Vec<i32>>());
    assert_eq!(m.n_frames, 4);
    assert_eq!(m.n_mels, 3);
    for (f, frame) in frames.iter().enumerate() {
        assert_eq!(m.frame(f), &frame[..]);
        for (b, e) in frame.iter().enumerate() {
            assert_eq!(m.at(f, b), e);
        }
    }
}

#[test]
fn no_frames_assemble_to_no_rows() {
    let frames: Vec<Vec<i32>> = Vec::new();
    let m = assemble(&frames, 80).unwrap_or_else(|e| panic!("{:?}", e));
    assert!(m.data.is_empty());
    assert_eq!(m.n_frames, 0);
}

#[test]
fn ragged_frames_with_a_remainder_do_not_assemble() {
    let frames = vec![vec![1, 2, 3], vec![4, 5]];
    assert!(matches!(assemble(&frames, 3), Err(PipelineError::InconsistentMelLength)));
}

#[test]
fn every_hop_gives_one_row() {
    let pcm: Vec<i32> = (1..=1000).collect();
    // Three "bands": the first, the 241st and the last sample of the window.
    let project = |w: &[i32]| vec![w[0], w[240], w[399]];
    let m = pcm_to_mel_frames_flat(&pcm, 3, 0, project).unwrap_or_else(|e| panic!("{:?}", e));
    assert_eq!(m.n_frames, 7);
    assert_eq!(m.n_mels, 3);
    assert_eq!(m.data.len(), 21);
    assert_eq!(m.frame(0), &[0, 1, 160]);
    assert_eq!(m.frame(1), &[0, 161, 320]);
    assert_eq!(m.frame(2), &[81, 321, 480]);
    assert_eq!(m.frame(6), &[721, 961, 0]);
}

#[test]
fn windows_reach_the_projection_whole() {
    let pcm = vec![1u8; 161];
    let project = |w: &[u8]| {
        assert_eq!(w.len(), 400);
        vec![w.iter().map(|x| *x as u32).sum::<u32>()]
    };
    let m = pcm_to_mel_frames_flat(&pcm, 1, 0, project).unwrap_or_else(|e| panic!("{:?}", e));
    assert_eq!(m.data, vec![160u32, 161]);
}

#[test]
fn an_empty_signal_has_no_frames() {
    let pcm: Vec<i32> = Vec::new();
    let project = |_: &[i32]| -> Vec<i32> { panic!("there is no window to project") };
    let m = pcm_to_mel_frames_flat(&pcm, 80, 0, project).unwrap_or_else(|e| panic!("{:?}", e));
    assert_eq!(m.n_frames, 0);
    assert_eq!(m.n_mels, 80);
}

#[test]
fn a_projection_of_the_wrong_width_is_caught() {
    let pcm = vec![0i32; 160];
    let project = |_: &[i32]| vec![0i32; 3];
    let r = pcm_to_mel_frames_flat(&pcm, 2, 0, project);
    assert!(matches!(r, Err(PipelineError::InconsistentMelLength)));
}
