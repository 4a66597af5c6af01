use cuda_oxide::arch::CudaArch;
use cuda_oxide::importer::array_len::{
    clear_array_len_eval, empty_array_len_slot, eval_array_len, install_array_len_eval,
};
use cuda_oxide::importer::location::{span_to_location, Location};
use cuda_oxide::lowering::context::LoweringContext;
use cuda_oxide::options::{cuda_toolkit_dir, BackendOptions, EnvironmentValues};

#[test]
fn options_follow_the_environment() {
    let options = BackendOptions::from_values(EnvironmentValues {
        target: Some("sm_120".to_string()),
        device_arch: None,
        no_opt: Some(String::new()),
        no_fma: None,
        verbose: Some("0".to_string()),
        llc: Some("/opt/llc".to_string()),
        opt: None,
    });
    assert_eq!(options.target_arch.as_deref(), Some("sm_120"));
    assert_eq!(options.device_arch_hint, None);
    assert!(options.no_opt);
    assert!(!options.no_fma);
    assert!(options.verbose);
    assert_eq!(options.llc_override.as_deref(), Some("/opt/llc"));
    assert_eq!(options.opt_override, None);
    let defaults = BackendOptions::default();
    assert!(defaults.target_arch.is_none() && !defaults.no_opt && !defaults.verbose);
}

#[test]
fn toolkit_path_is_taken_word_for_word() {
    assert_eq!(cuda_toolkit_dir(Some("/opt/cuda/".to_string())), "/opt/cuda/");
    assert_eq!(cuda_toolkit_dir(Some(String::new())), "");
    assert_eq!(cuda_toolkit_dir(None), "/usr/local/cuda");
}

#[test]
fn spans_without_a_place_are_unknown() {
    for (file, line, column) in [("", 1, 1), ("a.rs", 0, 1), ("a.rs", 1, 0)] {
        assert!(matches!(
            span_to_location(file.to_string(), line, column),
            Location::Unknown
        ));
    }
    match span_to_location("src/a.rs".to_string(), 12, 5) {
        Location::SrcPos { file, line, column } => {
            assert_eq!(file, "src/a.rs");
            assert_eq!(line, 12);
            assert_eq!(column, 5);
        }
        Location::Unknown => panic!("known span"),
    }
}

#[test]
fn positions_are_cut_to_signed_32_bits() {
    for n in [
        1usize,
        0x7fff_ffff,
        0x8000_0000,
        0xffff_ffff,
        0x1_0000_0000,
        0x1_2345_6789_abcd,
    ] {
        match span_to_location("a.rs".to_string(), n, n) {
            Location::SrcPos { line, column, .. } => {
                assert_eq!(line, n as i32);
                assert_eq!(column, n as i32);
            }
            Location::Unknown => panic!("known span"),
        }
    }
}

#[test]
fn array_lengths_come_from_the_installed_callback() {
    let mut slot = empty_array_len_slot();
    assert_eq!(eval_array_len(&slot, &"N"), None);
    install_array_len_eval(&mut slot, |name: &&str| {
        if *name == "N" {
            Some(16)
        } else {
            None
        }
    });
    assert_eq!(eval_array_len(&slot, &"N"), Some(16));
    assert_eq!(eval_array_len(&slot, &"M"), None);
    clear_array_len_eval(&mut slot);
    assert_eq!(eval_array_len(&slot, &"N"), None);
}

#[derive(Clone, Copy, Debug, Default, PartialEq)]
struct Options {
    fast: bool,
    level: u8,
}

#[test]
fn lowering_options_are_those_that_were_set_last() {
    let mut ctx = LoweringContext::<Options>::new();
    assert_eq!(ctx.lowering_options(), Options::default());
    ctx.set_lowering_options(Options {
        fast: true,
        level: 1,
    });
    ctx.set_lowering_options(Options {
        fast: false,
        level: 3,
    });
    assert_eq!(
        ctx.lowering_options(),
        Options {
            fast: false,
            level: 3
        }
    );
}

#[test]
fn architecture_names_read_back() {
    for name in ["sm_75", "sm_90a", "sm_120f", "sm_100"] {
        let arch = CudaArch::parse(name).unwrap();
        assert_eq!(arch.sm(), name);
        let again = CudaArch::parse(&arch.compute()).unwrap();
        assert_eq!(again.sm(), name);
        assert_eq!(again.capability(), arch.capability());
        assert_eq!(again.suffix(), arch.suffix());
    }
    assert_eq!(CudaArch::parse("sm_0090").unwrap().sm(), "sm_90");
}
