use native_interop::{
    mirai_compression_deflate, mirai_compression_gzip, mirai_compression_infalte,
    mirai_compression_ungzip, mirai_hash_md5, mirai_hash_sh1, SizedByteArray,
};

fn input(seed: u32, len: usize) -> Vec<u8> {
    let mut out: Vec<u8> = Vec::with_capacity(len);
    let mut state: u32 = seed;
    for _ in 0..len {
        state = state.wrapping_mul(1664525).wrapping_add(1013904223);
        out.push((state >> 24) as u8 % 16);
    }
    out
}

fn run(which: usize, data: &[u8]) -> Option<Vec<u8>> {
    let mut slot = SizedByteArray::new();
    let ok = match which % 6 {
        0 => mirai_hash_md5(data, &mut slot),
        1 => mirai_hash_sh1(data, &mut slot),
        2 => mirai_compression_gzip(data, &mut slot),
        3 => mirai_compression_deflate(data, &mut slot),
        4 => {
            let mut stream = SizedByteArray::new();
            assert!(mirai_compression_gzip(data, &mut stream));
            mirai_compression_ungzip(stream.bytes().unwrap(), &mut slot)
        }
        _ => {
            let mut stream = SizedByteArray::new();
            assert!(mirai_compression_deflate(data, &mut stream));
            mirai_compression_infalte(stream.bytes().unwrap(), &mut slot)
        }
    };
    if ok {
        slot.release()
    } else {
        None
    }
}

#[test]
fn a_call_gives_the_same_whatever_ran_before_it() {
    let jobs: Vec<(usize, Vec<u8>)> =
        (0..24usize).map(|i| (i, input(i as u32 + 1, 1000 + 977 * i))).collect();
    let forward: Vec<Option<Vec<u8>>> = jobs.iter().map(|(i, d)| run(*i, d)).collect();
    let mut backward: Vec<Option<Vec<u8>>> = jobs.iter().rev().map(|(i, d)| run(*i, d)).collect();
    backward.reverse();
    assert_eq!(backward, forward);
    for step in [5usize, 7, 11, 13] {
        for k in 0..jobs.len() {
            let at = (k * step) % jobs.len();
            assert_eq!(run(jobs[at].0, &jobs[at].1), forward[at]);
        }
    }
    for (i, d) in jobs.iter() {
        assert!(forward[*i].is_some());
        if i % 6 >= 4 {
            assert_eq!(forward[*i], Some(d.clone()));
        }
    }
}

#[test]
fn calls_that_share_a_slot_do_not_mix_their_results() {
    let data = input(99, 5000);
    let mut slot = SizedByteArray::new();
    assert!(mirai_hash_md5(&data, &mut slot));
    let md5 = slot.release();
    assert!(mirai_compression_gzip(&data, &mut slot));
    assert!(mirai_hash_sh1(&data, &mut slot));
    let sha1 = slot.release();
    assert!(!mirai_compression_ungzip(&data, &mut slot));
    assert!(slot.is_null());
    assert!(mirai_compression_deflate(&data, &mut slot));
    let zlib = slot.release();
    assert_eq!(md5, run(0, &data));
    assert_eq!(sha1, run(1, &data));
    assert_eq!(zlib, run(3, &data));
}
