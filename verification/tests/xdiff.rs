use sapling_io::{s_xpparam, xpparam_t, XDF_INDENT_HEURISTIC, XDF_NEED_MINIMAL, XDL_EMIT_BDIFFHUNK};

#[test]
fn bindgen_test_layout_s_xpparam() {
    assert_eq!(
        ::std::mem::size_of::<s_xpparam>(),
        8usize,
        "Size of: s_xpparam"
    );
    assert_eq!(
        ::std::mem::align_of::<s_xpparam>(),
        8usize,
        "Alignment of s_xpparam"
    );
}

#[test]
fn xpparam_holds_combined_flags() {
    let p: xpparam_t = s_xpparam {
        flags: (XDF_NEED_MINIMAL | XDF_INDENT_HEURISTIC) as u64,
    };
    let q = p;
    assert_eq!(q.flags, 8388609);
    assert_eq!(XDL_EMIT_BDIFFHUNK, 16);
}
