use dcal::converter::ResampledDecoder;
use dcal::orchestrator::{Orchestrator, PlayerStep};
use dcal::source::{DecodeSource, DecoderError, TailSignal};

/// `n_chunks` chunks of `chunk_len` interleaved samples each.
fn chunks_of(n_chunks: usize, chunk_len: usize, value: f32) -> Vec<Vec<f32>> {
    let mut chunks = Vec::new();
    let mut i: usize = 0;
    while i < n_chunks {
        chunks.push(vec![value; chunk_len]);
        i += 1;
    }
    chunks
}

// For FftFixedInOut::new(44100, 48000, 1024, 2): gcd 300, input block
// 7 * 147 = 1029 frames, output block 7 * 160 = 1120 frames.
const IN_BLOCK_44100_48000: usize = 1029 * 2;
const OUT_BLOCK_44100_48000: usize = 1120 * 2;

#[test]
fn passthrough_is_byte_identical_to_the_source() {
    let chunks = vec![vec![1.0f32, 2.0], vec![3.0f32, 4.0, 5.0], vec![6.0f32]];
    let mut src = DecodeSource::new(chunks.clone(), 44100, TailSignal::EndOfStream);
    let mut conv: ResampledDecoder<f32> = ResampledDecoder::new(44100, 2, 0.0);
    conv.initialize(&mut src).unwrap();
    assert_eq!(conv.in_sample_rate(), 44100);
    assert_eq!(conv.out_sample_rate(), 44100);
    assert_eq!(conv.current(&src).as_slice(), chunks[0].as_slice());
    assert_eq!(conv.decode_next_frame(&mut src), Ok(Some(())));
    assert_eq!(conv.current(&src).as_slice(), chunks[1].as_slice());
    assert_eq!(conv.decode_next_frame(&mut src), Ok(Some(())));
    assert_eq!(conv.current(&src).as_slice(), chunks[2].as_slice());
    assert_eq!(conv.decode_next_frame(&mut src), Ok(None));
    // flush in bypass returns the empty block
    assert_eq!(conv.flush(), Ok(false));
}

#[test]
fn resampling_changes_the_block_length() {
    // A wrapper that handed its input back unchanged would produce input-sized
    // blocks; 44100 -> 88200 must double the frame count (512 in, 1024 out).
    let mut src = DecodeSource::new(chunks_of(10, 512, 0.1), 44100, TailSignal::EndOfStream);
    let mut conv: ResampledDecoder<f32> = ResampledDecoder::new(88200, 2, 0.0);
    conv.initialize(&mut src).unwrap();
    assert_eq!(conv.current(&src).len(), 1024 * 2);
}

#[test]
fn scenario_one_track_active_then_flush() {
    // 40 chunks x 331 samples = 13240; 6 full input blocks of 2058, 892 left.
    let mut src = DecodeSource::new(chunks_of(40, 331, 0.01), 44100, TailSignal::EndOfStream);
    let mut conv: ResampledDecoder<f32> = ResampledDecoder::new(48000, 2, 0.0);
    conv.initialize(&mut src).unwrap();
    assert_eq!(conv.in_sample_rate(), 44100);
    assert_eq!(conv.current(&src).len(), OUT_BLOCK_44100_48000);
    let mut blocks = 1usize;
    loop {
        match conv.decode_next_frame(&mut src) {
            Ok(Some(())) => {
                assert_eq!(conv.current(&src).len(), OUT_BLOCK_44100_48000);
                blocks += 1;
            }
            Ok(None) => break,
            Err(e) => panic!("unexpected decode failure: {:?}", e),
        }
    }
    assert_eq!(blocks, 13240 / IN_BLOCK_44100_48000);
    // one shorter-than-a-block tail is pending: exactly one flushed block
    assert_eq!(conv.flush(), Ok(true));
    assert_eq!(conv.current(&src).len(), OUT_BLOCK_44100_48000);
    // and then no further output
    assert_eq!(conv.flush(), Ok(false));
    assert_eq!(conv.decode_next_frame(&mut src), Ok(None));
}

#[test]
fn scenario_two_equal_rate_tracks_stay_bypass() {
    let chunks1 = chunks_of(3, 100, 0.2);
    let chunks2 = chunks_of(2, 50, 0.3);
    let mut conv: ResampledDecoder<f32> = ResampledDecoder::new(44100, 2, 0.0);
    let mut orch = Orchestrator::new(2);

    let mut src1 = DecodeSource::new(chunks1.clone(), 44100, TailSignal::EndOfStream);
    let setup = orch.on_track_ready(src1.sample_rate(), conv.in_sample_rate());
    assert!(setup.prefill_and_start);
    assert!(!setup.flush_before_init);
    conv.initialize(&mut src1).unwrap();
    // bypass: the converter's current block is the source's own chunk
    assert_eq!(conv.in_sample_rate(), conv.out_sample_rate());
    assert_eq!(conv.current(&src1).as_slice(), chunks1[0].as_slice());
    loop {
        match conv.decode_next_frame(&mut src1) {
            Ok(Some(())) => {}
            Ok(None) => break,
            Err(e) => panic!("unexpected decode failure: {:?}", e),
        }
    }
    assert_eq!(orch.on_decode_result(&Ok(None)), PlayerStep::OpenTrack { index: 1 });

    let mut src2 = DecodeSource::new(chunks2.clone(), 44100, TailSignal::EndOfStream);
    let setup2 = orch.on_track_ready(src2.sample_rate(), conv.in_sample_rate());
    assert!(!setup2.prefill_and_start);
    assert!(!setup2.flush_before_init);
    conv.initialize(&mut src2).unwrap();
    assert_eq!(conv.current(&src2).as_slice(), chunks2[0].as_slice());
    assert_eq!(conv.flush(), Ok(false));
}

#[test]
fn scenario_reset_required_reopens_the_same_track() {
    let chunks = chunks_of(8, 331, 0.05);
    let mut conv: ResampledDecoder<f32> = ResampledDecoder::new(48000, 2, 0.0);
    let mut orch = Orchestrator::new(1);

    let mut src = DecodeSource::new(chunks.clone(), 44100, TailSignal::ResetRequired);
    let setup = orch.on_track_ready(src.sample_rate(), conv.in_sample_rate());
    assert!(setup.prefill_and_start);
    conv.initialize(&mut src).unwrap();
    let mut result = Ok(Some(()));
    loop {
        result = conv.decode_next_frame(&mut src);
        match result {
            Ok(Some(())) => {}
            _ => break,
        }
    }
    assert_eq!(result, Err(DecoderError::ResetRequired));
    // the orchestrator reopens the same source and does not advance the queue
    assert_eq!(orch.on_decode_result(&result), PlayerStep::ReopenTrack { index: 0 });
    assert_eq!(orch.current_track(), Some(0));

    // same underlying input, rebuilt decode source; no prefill or start re-run
    let mut reopened = DecodeSource::new(chunks, 44100, TailSignal::EndOfStream);
    let setup2 = orch.on_track_ready(reopened.sample_rate(), conv.in_sample_rate());
    assert!(!setup2.prefill_and_start);
    assert!(!setup2.flush_before_init);
    conv.initialize(&mut reopened).unwrap();
    loop {
        match conv.decode_next_frame(&mut reopened) {
            Ok(Some(())) => {}
            Ok(None) => break,
            Err(e) => panic!("unexpected decode failure: {:?}", e),
        }
    }
    assert_eq!(orch.on_decode_result(&Ok(None)), PlayerStep::Finished);
}

#[test]
fn scenario_rate_change_flushes_then_goes_bypass() {
    // track 1 at 44100 into a 48000 sink: Active; track 2 at 48000: Bypass.
    let mut conv: ResampledDecoder<f32> = ResampledDecoder::new(48000, 2, 0.0);
    let mut orch = Orchestrator::new(2);

    let mut src1 = DecodeSource::new(chunks_of(8, 331, 0.01), 44100, TailSignal::EndOfStream);
    orch.on_track_ready(src1.sample_rate(), conv.in_sample_rate());
    conv.initialize(&mut src1).unwrap();
    loop {
        match conv.decode_next_frame(&mut src1) {
            Ok(Some(())) => {}
            Ok(None) => break,
            Err(e) => panic!("unexpected decode failure: {:?}", e),
        }
    }
    assert_eq!(orch.on_decode_result(&Ok(None)), PlayerStep::OpenTrack { index: 1 });

    let chunks2 = chunks_of(2, 64, 0.4);
    let mut src2 = DecodeSource::new(chunks2.clone(), 48000, TailSignal::EndOfStream);
    let setup = orch.on_track_ready(src2.sample_rate(), conv.in_sample_rate());
    // the rate differs from the previous session's: flush before reinitializing
    assert!(setup.flush_before_init);
    // 8 x 331 = 2648 = 2058 + 590 pending samples: the flush yields one block
    assert_eq!(conv.flush(), Ok(true));
    assert_eq!(conv.current(&src2).len(), OUT_BLOCK_44100_48000);
    assert_eq!(conv.flush(), Ok(false));

    conv.initialize(&mut src2).unwrap();
    assert_eq!(conv.in_sample_rate(), 48000);
    assert_eq!(conv.current(&src2).as_slice(), chunks2[0].as_slice());
}

#[test]
fn equal_rate_track_switch_reuses_the_session() {
    // both tracks at 44100 into a 48000 sink: the session is kept, only the
    // chunk cursor rewinds; blocks keep the same fixed size, and the rates
    // are unchanged by the switch.
    let mut conv: ResampledDecoder<f32> = ResampledDecoder::new(48000, 2, 0.0);
    let mut src1 = DecodeSource::new(chunks_of(8, 331, 0.01), 44100, TailSignal::EndOfStream);
    conv.initialize(&mut src1).unwrap();
    loop {
        match conv.decode_next_frame(&mut src1) {
            Ok(Some(())) => {}
            Ok(None) => break,
            Err(e) => panic!("unexpected decode failure: {:?}", e),
        }
    }
    let mut src2 = DecodeSource::new(chunks_of(8, 331, 0.02), 44100, TailSignal::EndOfStream);
    // same, non-output rate: no flush is owed at this boundary
    assert_eq!(conv.in_sample_rate(), src2.sample_rate());
    conv.initialize(&mut src2).unwrap();
    assert_eq!(conv.in_sample_rate(), 44100);
    let mut produced = 0usize;
    loop {
        match conv.decode_next_frame(&mut src2) {
            Ok(Some(())) => {
                assert_eq!(conv.current(&src2).len(), OUT_BLOCK_44100_48000);
                produced += 1;
            }
            Ok(None) => break,
            Err(e) => panic!("unexpected decode failure: {:?}", e),
        }
    }
    // 590 samples were already pending from track 1: (590 + 2648) / 2058 = 1
    assert_eq!(produced, 1);
}

#[test]
fn fatal_decode_failure_aborts() {
    let mut src = DecodeSource::new(chunks_of(1, 10, 0.0), 44100, TailSignal::Failed);
    let mut conv: ResampledDecoder<f32> = ResampledDecoder::new(44100, 2, 0.0);
    let mut orch = Orchestrator::new(1);
    orch.on_track_ready(src.sample_rate(), conv.in_sample_rate());
    conv.initialize(&mut src).unwrap();
    let r = conv.decode_next_frame(&mut src);
    assert_eq!(r, Err(DecoderError::DecodeFailed));
    assert_eq!(orch.on_decode_result(&r), PlayerStep::Abort);
}

#[test]
fn source_reports_its_tail_once_chunks_run_out() {
    let mut src = DecodeSource::new(chunks_of(2, 4, 1.0), 32000, TailSignal::ResetRequired);
    assert_eq!(src.sample_rate(), 32000);
    assert_eq!(src.next(), Ok(Some(())));
    assert_eq!(src.next(), Err(DecoderError::ResetRequired));
    assert_eq!(src.next(), Err(DecoderError::ResetRequired));
}

#[test]
fn queue_exhaustion_finishes_playback() {
    let mut orch = Orchestrator::new(2);
    orch.on_track_ready(44100, 44100);
    assert_eq!(orch.on_decode_result(&Ok(Some(()))), PlayerStep::Continue);
    assert_eq!(orch.on_decode_result(&Ok(None)), PlayerStep::OpenTrack { index: 1 });
    assert_eq!(orch.on_decode_result(&Ok(None)), PlayerStep::Finished);
    assert_eq!(orch.current_track(), None);
}
