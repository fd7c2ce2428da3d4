use patch_build::error::Error;
use patch_build::kpatch_builder::CliWorkDir;
use patch_build::kpatch_builder::KernelPatchBuilder;
use patch_build::kpatch_builder::PatchBuilderArguments;
use patch_build::kpatch_builder::SourcePackageLayout;
use patch_build::patch_info::CliArguments;
use patch_build::patch_info::FileProbe;
use patch_build::patch_info::PatchInfo;
use patch_build::patch_info::PatchType;
use patch_build::patch_info::SourceProbe;

const DIGEST_A: &str = "00112233445566778899aabbccddeeff00112233445566778899aabbccddeeff";
const DIGEST_C: &str = "abcdefabcdefabcdefabcdefabcdefabcdefabcdefabcdefabcdefabcdefabcd";

fn workdir() -> CliWorkDir {
    CliWorkDir {
        patch_build_root: "/work/patch/build".to_string(),
        patch_output_dir: "/work/patch/output".to_string(),
        package_source_dir: "/work/package/source".to_string(),
        package_debug_dir: "/work/package/debug".to_string(),
    }
}

fn args() -> CliArguments {
    CliArguments {
        patch_name: "cve-fix".to_string(),
        patch_version: "undefined".to_string(),
        patches: vec!["a.patch".to_string()],
        source: "/work/package/source".to_string(),
        target_name: None,
        target_version: None,
        target_release: None,
        target_license: None,
        patch_summary: "An example patch".to_string(),
        kjobs: 8,
        skip_compiler_check: false,
    }
}

fn kernel_patch_info() -> PatchInfo {
    let probe = SourceProbe {
        file_list_digest: DIGEST_C.to_string(),
        kernel_marker_found: true,
        files: vec![FileProbe {
            readable: true,
            name: "a.patch".to_string(),
            path: "/tmp/a.patch".to_string(),
            digest: DIGEST_A.to_string(),
        }],
    };
    PatchInfo::new(&args(), &probe).unwrap()
}

fn complete_layout() -> SourcePackageLayout {
    SourcePackageLayout {
        source_build_dir: Some("/work/rpmbuild/BUILD".to_string()),
        kernel_source_dir: Some("/work/rpmbuild/BUILD/kernel-5.10".to_string()),
        defconfig_generated: true,
        kernel_config: Some("/work/rpmbuild/BUILD/kernel-5.10/.config".to_string()),
        vmlinux: Some("/work/package/debug/vmlinux".to_string()),
    }
}

#[test]
fn missing_kernel_config_fails_before_any_build() {
    let info = kernel_patch_info();
    assert_eq!(info.get_patch_type(), PatchType::KernelPatch);
    let builder = KernelPatchBuilder::new(workdir());
    let mut layout = complete_layout();
    layout.kernel_config = None;
    match builder.parse_builder_args(&info, &args(), &layout) {
        Err(Error::Io(m)) => assert_eq!(m, "cannot find kernel config file"),
        _ => panic!("expected an I/O error naming the config"),
    }
}

#[test]
fn missing_artifacts_are_reported_in_resolution_order() {
    let info = kernel_patch_info();
    let builder = KernelPatchBuilder::new(workdir());

    let mut layout = complete_layout();
    layout.source_build_dir = None;
    layout.kernel_config = None;
    match builder.parse_builder_args(&info, &args(), &layout) {
        Err(Error::Io(m)) => assert_eq!(m, "cannot find build root of source package"),
        _ => panic!("expected an I/O error"),
    }

    let mut layout = complete_layout();
    layout.kernel_source_dir = None;
    match builder.parse_builder_args(&info, &args(), &layout) {
        Err(Error::Io(m)) => assert_eq!(m, "cannot find kernel source directory"),
        _ => panic!("expected an I/O error"),
    }

    let mut layout = complete_layout();
    layout.defconfig_generated = false;
    match builder.parse_builder_args(&info, &args(), &layout) {
        Err(Error::Io(m)) => assert_eq!(m, "cannot generate kernel default config"),
        _ => panic!("expected an I/O error"),
    }

    let mut layout = complete_layout();
    layout.vmlinux = None;
    match builder.parse_builder_args(&info, &args(), &layout) {
        Err(Error::Io(m)) => assert_eq!(m, "cannot find kernel image vmlinux"),
        _ => panic!("expected an I/O error"),
    }
}

#[test]
fn complete_layout_yields_the_kernel_build_command() {
    let info = kernel_patch_info();
    let builder = KernelPatchBuilder::new(workdir());
    let parsed = builder
        .parse_builder_args(&info, &args(), &complete_layout())
        .unwrap();
    match &parsed {
        PatchBuilderArguments::KernelPatch(k) => {
            assert_eq!(k.build_root, "/work/patch/build");
            assert_eq!(k.patch_name, "cve-fix");
            assert_eq!(k.jobs, 8);
            assert_eq!(k.output_dir, "/work/patch/output");
            assert_eq!(k.patch_list.len(), 1);
            assert_eq!(k.patch_list[0].get_path(), "/tmp/a.patch");
        }
        PatchBuilderArguments::UserPatch => panic!("expected kernel patch arguments"),
    }

    let inv = builder.build_patch_cmd(&parsed);
    assert_eq!(inv.program, "kpatch-build");
    assert_eq!(
        inv.args,
        vec![
            "--name",
            "cve-fix",
            "--sourcedir",
            "/work/rpmbuild/BUILD/kernel-5.10",
            "--config",
            "/work/rpmbuild/BUILD/kernel-5.10/.config",
            "--vmlinux",
            "/work/package/debug/vmlinux",
            "--jobs",
            "8",
            "--output",
            "/work/patch/output",
            "--skip-cleanup",
            "/tmp/a.patch",
        ]
    );
    assert_eq!(inv.envs.len(), 4);
    let expected_envs = [
        ("CACHEDIR", "/work/patch/build"),
        ("NO_PROFILING_CALLS", "/work/patch/build"),
        ("DISABLE_AFTER_LOAD", "/work/patch/build"),
        ("KEEP_JUMP_LABEL", "/work/patch/build"),
    ];
    for (i, (name, value)) in expected_envs.iter().enumerate() {
        assert_eq!(inv.envs[i].0, *name);
        assert_eq!(inv.envs[i].1, *value);
    }
}

#[test]
fn skip_compiler_check_adds_the_flag_before_the_patch_files() {
    let info = kernel_patch_info();
    let builder = KernelPatchBuilder::new(workdir());
    let mut a = args();
    a.skip_compiler_check = true;
    let parsed = builder
        .parse_builder_args(&info, &a, &complete_layout())
        .unwrap();
    let inv = builder.build_patch_cmd(&parsed);
    let flags: Vec<&str> = inv.args.iter().map(|s| s.as_str()).collect();
    let skip_pos = flags
        .iter()
        .position(|f| *f == "--skip-compiler-check")
        .unwrap();
    let cleanup_pos = flags.iter().position(|f| *f == "--skip-cleanup").unwrap();
    let patch_pos = flags.iter().position(|f| *f == "/tmp/a.patch").unwrap();
    assert!(cleanup_pos < skip_pos);
    assert!(skip_pos < patch_pos);
}

#[test]
fn write_patch_info_records_the_kernel_image_for_display() {
    let mut info = kernel_patch_info();
    let builder = KernelPatchBuilder::new(workdir());
    let parsed = builder
        .parse_builder_args(&info, &args(), &complete_layout())
        .unwrap();
    builder.write_patch_info(&mut info, &parsed).unwrap();
    assert_eq!(info.get_target_elfs().len(), 1);
    assert_eq!(info.get_target_elfs()[0].0, "vmlinux");
    assert_eq!(info.get_target_elfs()[0].1, "vmlinux");
}
