use dcal::buffer::ChannelBuffer;
use dcal::converter::fill_from_deinterleaved;

fn buf_2ch_4frames() -> ChannelBuffer<f32> {
    ChannelBuffer::new(4, 2, 0.0f32)
}

#[test]
fn fill_consumes_whole_short_input() {
    let mut b = buf_2ch_4frames();
    assert_eq!(b.capacity_samples(), 8);
    let src = vec![1.0f32, 2.0, 3.0];
    let n = b.fill_from_slice(&src, 0);
    assert_eq!(n, 3);
    assert_eq!(b.position(), 3);
    assert!(!b.is_full());
}

#[test]
fn fill_never_exceeds_capacity() {
    let mut b = buf_2ch_4frames();
    let src = vec![0.5f32; 100];
    let n = b.fill_from_slice(&src, 0);
    assert_eq!(n, 8);
    assert_eq!(b.position(), 8);
    assert!(b.is_full());
    let m = b.fill_from_slice(&src, n);
    assert_eq!(m, 0);
    assert_eq!(b.position(), 8);
}

#[test]
fn successive_tail_fills_sum_to_consumed_total() {
    let mut b = buf_2ch_4frames();
    let stream = vec![0.25f32; 11];
    let mut consumed = 0usize;
    while !b.is_full() {
        let n = b.fill_from_slice(&stream, consumed);
        assert!(b.position() <= b.capacity_samples());
        consumed += n;
    }
    assert_eq!(consumed, 8);
    assert_eq!(b.position(), b.capacity_samples());
}

#[test]
fn fill_demultiplexes_interleaved_samples() {
    let mut b = buf_2ch_4frames();
    let src = vec![1.0f32, 10.0, 2.0, 20.0, 3.0, 30.0, 4.0, 40.0];
    let n = b.fill_from_slice(&src, 0);
    assert_eq!(n, 8);
    let inner = b.inner();
    assert_eq!(inner[0], vec![1.0f32, 2.0, 3.0, 4.0]);
    assert_eq!(inner[1], vec![10.0f32, 20.0, 30.0, 40.0]);
}

#[test]
fn reset_keeps_storage_and_rewinds_position() {
    let mut b = buf_2ch_4frames();
    let src = vec![0.5f32; 8];
    b.fill_from_slice(&src, 0);
    b.reset();
    assert_eq!(b.position(), 0);
    assert!(!b.is_full());
    let n = b.fill_from_slice(&src, 0);
    assert_eq!(n, 8);
}

#[test]
fn silence_remainder_pads_only_the_tail() {
    let mut b = buf_2ch_4frames();
    let src = vec![7.0f32, 8.0, 9.0];
    b.fill_from_slice(&src, 0);
    b.silence_remainder();
    assert_eq!(b.position(), 3);
    let inner = b.inner();
    // interleaved prefix 7, 8, 9 lands at (ch 0, fr 0), (ch 1, fr 0), (ch 0, fr 1)
    assert_eq!(inner[0], vec![7.0f32, 9.0, 0.0, 0.0]);
    assert_eq!(inner[1], vec![8.0f32, 0.0, 0.0, 0.0]);
}

#[test]
fn deinterleave_roundtrip() {
    let bufs = vec![vec![1.0f32, 3.0, 5.0], vec![2.0f32, 4.0, 6.0]];
    let mut out: Vec<f32> = Vec::new();
    fill_from_deinterleaved(&mut out, &bufs);
    assert_eq!(out, vec![1.0f32, 2.0, 3.0, 4.0, 5.0, 6.0]);
}
