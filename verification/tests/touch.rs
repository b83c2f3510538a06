use rotary_dial::touch::{decode_touch, merge_reads, TouchPoint, FT3267};

#[test]
fn decode_without_touch() {
    let buf = vec![0u8; 13];
    let snap = decode_touch(&buf);
    assert!(snap.first.is_none());
    assert!(snap.second.is_none());
}

#[test]
fn decode_one_point() {
    let mut buf = vec![0u8; 13];
    buf[2] = 1;
    buf[3] = 0x01;
    buf[4] = 0x42;
    buf[5] = 0x02;
    buf[6] = 0x10;
    let snap = decode_touch(&buf);
    assert_eq!(snap.first, Some(TouchPoint { x: 0x142, y: 0x210 }));
    assert!(snap.second.is_none());
}

#[test]
fn decode_two_points() {
    let mut buf = vec![0u8; 13];
    buf[2] = 2;
    buf[3] = 0x00;
    buf[4] = 10;
    buf[5] = 0x00;
    buf[6] = 20;
    buf[9] = 0x0F;
    buf[10] = 0xFF;
    buf[11] = 0x01;
    buf[12] = 0x00;
    let snap = decode_touch(&buf);
    assert_eq!(snap.first, Some(TouchPoint { x: 10, y: 20 }));
    assert_eq!(snap.second, Some(TouchPoint { x: 0xFFF, y: 0x100 }));
}

#[test]
fn coordinates_are_twelve_bit() {
    // The high nibble of each high byte is masked off.
    let mut buf = vec![0u8; 13];
    buf[2] = 1;
    buf[3] = 0xF1;
    buf[4] = 0x42;
    buf[5] = 0xA2;
    buf[6] = 0x10;
    let snap = decode_touch(&buf);
    assert_eq!(snap.first, Some(TouchPoint { x: 0x142, y: 0x210 }));
}

#[test]
fn failed_reads_keep_previous_bytes() {
    let previous: Vec<u8> = (0u8..13).collect();
    let mut reads: Vec<Option<u8>> = vec![None; 13];
    reads[2] = Some(1);
    reads[4] = Some(0x99);
    let buf = merge_reads(&previous, &reads);
    assert_eq!(buf[2], 1);
    assert_eq!(buf[4], 0x99);
    // Every register whose read failed keeps its previous value.
    assert_eq!(buf[0], 0);
    assert_eq!(buf[3], 3);
    assert_eq!(buf[12], 12);
}

#[test]
fn sampler_keeps_bytes_across_ticks() {
    // Tick one reads a full touch; in tick two the low x byte read fails,
    // and the sampler falls back to the byte of the previous tick.
    let mut sampler = FT3267::new();
    let mut reads: Vec<Option<u8>> = vec![Some(0); 13];
    reads[2] = Some(1);
    reads[3] = Some(0x01);
    reads[4] = Some(0x42);
    reads[5] = Some(0x02);
    reads[6] = Some(0x10);
    let snap = sampler.touch(&reads);
    assert_eq!(snap.first, Some(TouchPoint { x: 0x142, y: 0x210 }));

    reads[4] = None;
    let snap = sampler.touch(&reads);
    assert_eq!(snap.first, Some(TouchPoint { x: 0x142, y: 0x210 }));
}

#[test]
fn fresh_sampler_reports_no_touch() {
    let mut sampler = FT3267::new();
    let reads: Vec<Option<u8>> = vec![None; 13];
    let snap = sampler.touch(&reads);
    assert!(snap.first.is_none());
    assert!(snap.second.is_none());
}

#[test]
fn all_reads_failing_keeps_whole_buffer() {
    let previous: Vec<u8> = vec![7u8; 13];
    let reads: Vec<Option<u8>> = vec![None; 13];
    let buf = merge_reads(&previous, &reads);
    assert_eq!(buf, previous);
}
