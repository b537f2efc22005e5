use mtrap::harts::{check_dtb_header, cluster_core_total, count_harts_in_dtb, dtb_total_size};

fn push_begin(out: &mut Vec<u8>, name: &str) {
    out.extend_from_slice(&1u32.to_be_bytes());
    out.extend_from_slice(name.as_bytes());
    out.push(0);
    while out.len() % 4 != 0 {
        out.push(0);
    }
}

fn push_end(out: &mut Vec<u8>) {
    out.extend_from_slice(&2u32.to_be_bytes());
}

/// A minimal flattened device tree (version 17): no properties, a
/// core-map node whose children are clusters, each cluster's children
/// the cores.
fn build_fdt(clusters: &[usize]) -> Vec<u8> {
    let mut s: Vec<u8> = Vec::new();
    push_begin(&mut s, "");
    push_begin(&mut s, "cpus");
    push_begin(&mut s, "cpu-map");
    for (ci, &cores) in clusters.iter().enumerate() {
        push_begin(&mut s, &format!("cluster{}", ci));
        for k in 0..cores {
            push_begin(&mut s, &format!("core{}", k));
            push_end(&mut s);
        }
        push_end(&mut s);
    }
    push_end(&mut s); // cpu-map
    push_end(&mut s); // cpus
    push_end(&mut s); // root

    let total: u32 = (56 + s.len()) as u32;
    let mut out: Vec<u8> = Vec::new();
    out.extend_from_slice(&0xD00D_FEEDu32.to_be_bytes()); // magic
    out.extend_from_slice(&total.to_be_bytes()); // total size
    out.extend_from_slice(&56u32.to_be_bytes()); // struct offset
    out.extend_from_slice(&total.to_be_bytes()); // strings offset (no props)
    out.extend_from_slice(&40u32.to_be_bytes()); // reserved-map offset
    out.extend_from_slice(&17u32.to_be_bytes()); // version
    out.extend_from_slice(&16u32.to_be_bytes()); // last compatible version
    out.extend_from_slice(&0u32.to_be_bytes()); // boot cpu
    out.extend_from_slice(&0u32.to_be_bytes()); // strings size
    out.extend_from_slice(&(s.len() as u32).to_be_bytes()); // struct size
    out.extend_from_slice(&[0u8; 16]); // reserved-map terminator
    out.extend_from_slice(&s);
    out
}

#[test]
fn header_check_accepts_the_magic_and_rejects_others() {
    let good = build_fdt(&[1]);
    assert!(check_dtb_header(&good));
    assert_eq!(dtb_total_size(&good), good.len() as u64);

    let mut bad = good.clone();
    bad[0] = 0x00;
    assert!(!check_dtb_header(&bad));

    let short: Vec<u8> = vec![0xD0, 0x0D, 0xFE];
    assert!(!check_dtb_header(&short));
}

#[test]
fn cluster_totals_are_exact() {
    assert_eq!(cluster_core_total(&vec![]), 0);
    assert_eq!(cluster_core_total(&vec![2, 1, 4]), 7);
    assert_eq!(cluster_core_total(&vec![usize::MAX, 3]), usize::MAX);
}

#[test]
fn harts_are_counted_across_clusters() {
    assert_eq!(count_harts_in_dtb(&build_fdt(&[2, 1]), 8), 3);
    assert_eq!(count_harts_in_dtb(&build_fdt(&[2, 2]), 8), 4);
    assert_eq!(count_harts_in_dtb(&build_fdt(&[]), 8), 0);
}

#[test]
fn bad_magic_falls_back_to_default() {
    let mut blob = build_fdt(&[2, 2]);
    blob[0] = 0xAA;
    assert_eq!(count_harts_in_dtb(&blob, 8), 8);
}

#[test]
fn unparsable_blob_falls_back_to_default() {
    // magic in place, everything after it truncated
    let blob: Vec<u8> = vec![0xD0, 0x0D, 0xFE, 0xED, 0, 0, 0, 12, 0, 0, 0, 0];
    assert_eq!(count_harts_in_dtb(&blob, 8), 8);

    // an unsupported version is rejected by the parser
    let mut wrong_version = build_fdt(&[2]);
    wrong_version[23] = 3;
    assert_eq!(count_harts_in_dtb(&wrong_version, 5), 5);
}

#[test]
fn blob_without_core_map_falls_back_to_default() {
    let mut s: Vec<u8> = Vec::new();
    push_begin(&mut s, "");
    push_begin(&mut s, "cpus");
    push_end(&mut s);
    push_end(&mut s);
    let total: u32 = (56 + s.len()) as u32;
    let mut out: Vec<u8> = Vec::new();
    out.extend_from_slice(&0xD00D_FEEDu32.to_be_bytes());
    out.extend_from_slice(&total.to_be_bytes());
    out.extend_from_slice(&56u32.to_be_bytes());
    out.extend_from_slice(&total.to_be_bytes());
    out.extend_from_slice(&40u32.to_be_bytes());
    out.extend_from_slice(&17u32.to_be_bytes());
    out.extend_from_slice(&16u32.to_be_bytes());
    out.extend_from_slice(&0u32.to_be_bytes());
    out.extend_from_slice(&0u32.to_be_bytes());
    out.extend_from_slice(&(s.len() as u32).to_be_bytes());
    out.extend_from_slice(&[0u8; 16]);
    out.extend_from_slice(&s);
    assert_eq!(count_harts_in_dtb(&out, 6), 6);
}
