use vstd::prelude::*;
use vstd::string::*;
use vstd::pervasive::unreached;

use crate::cmd::Invocation;
use crate::error::Error;
use crate::patch_info::CliArguments;
use crate::patch_info::PatchFile;
use crate::patch_info::PatchFileV;
use crate::patch_info::PatchInfo;
use crate::patch_info::PatchInfoV;
use crate::text::spec_decimal;
use crate::text::usize_to_string;

verus! {

/// The working directories of one build session, as the command line
/// laid them out.
pub struct CliWorkDir {
    /// Build root the kernel patch build runs under.
    pub patch_build_root: String,
    /// Directory the produced patch artifacts go to.
    pub patch_output_dir: String,
    /// Directory the source package was extracted to.
    pub package_source_dir: String,
    /// Directory the debug info package was extracted to.
    pub package_debug_dir: String,
}

/// Mathematical value of a `CliWorkDir`.
#[verifier::ext_equal]
pub ghost struct CliWorkDirV {
    pub patch_build_root: Seq<char>,
    pub patch_output_dir: Seq<char>,
    pub package_source_dir: Seq<char>,
    pub package_debug_dir: Seq<char>,
}

impl View for CliWorkDir {
    type V = CliWorkDirV;

    open spec fn view(&self) -> CliWorkDirV {
        CliWorkDirV {
            patch_build_root: self.patch_build_root@,
            patch_output_dir: self.patch_output_dir@,
            package_source_dir: self.package_source_dir@,
            package_debug_dir: self.package_debug_dir@,
        }
    }
}

/// The typed arguments of one kernel patch build.
pub struct KernelPatchBuilderArguments {
    pub build_root: String,
    pub patch_name: String,
    pub source_dir: String,
    pub config: String,
    pub vmlinux: String,
    pub jobs: usize,
    pub output_dir: String,
    pub skip_compiler_check: bool,
    pub patch_list: Vec<PatchFile>,
}

/// Mathematical value of a `KernelPatchBuilderArguments`.
#[verifier::ext_equal]
pub ghost struct KernelPatchBuilderArgumentsV {
    pub build_root: Seq<char>,
    pub patch_name: Seq<char>,
    pub source_dir: Seq<char>,
    pub config: Seq<char>,
    pub vmlinux: Seq<char>,
    pub jobs: usize,
    pub output_dir: Seq<char>,
    pub skip_compiler_check: bool,
    pub patch_list: Seq<PatchFileV>,
}

impl View for KernelPatchBuilderArguments {
    type V = KernelPatchBuilderArgumentsV;

    open spec fn view(&self) -> KernelPatchBuilderArgumentsV {
        KernelPatchBuilderArgumentsV {
            build_root: self.build_root@,
            patch_name: self.patch_name@,
            source_dir: self.source_dir@,
            config: self.config@,
            vmlinux: self.vmlinux@,
            jobs: self.jobs,
            output_dir: self.output_dir@,
            skip_compiler_check: self.skip_compiler_check,
            patch_list: self.patch_list@.map_values(|f: PatchFile| f@),
        }
    }
}

/// The tagged union of per-variant build arguments. The two variants
/// are chosen exclusively and early; handing a builder the other
/// variant's arguments is a programming-contract violation, ruled out
/// by precondition.
pub enum PatchBuilderArguments {
    KernelPatch(KernelPatchBuilderArguments),
    UserPatch,
}

/// What the package layout and kernel helpers could resolve for one
/// build: the runtime asks them and hands the findings in.
pub struct SourcePackageLayout {
    /// Build root of the extracted source package, when found.
    pub source_build_dir: Option<String>,
    /// Kernel source subtree matching the patch target, when found.
    pub kernel_source_dir: Option<String>,
    /// Generating the default kernel configuration succeeded. The
    /// generation is idempotent, so asking again is safe.
    pub defconfig_generated: bool,
    /// The generated kernel configuration file, when found.
    pub kernel_config: Option<String>,
    /// The stripped debug kernel image, when found.
    pub vmlinux: Option<String>,
}

/// Mathematical value of a `SourcePackageLayout`.
#[verifier::ext_equal]
pub ghost struct SourcePackageLayoutV {
    pub source_build_dir: Option<Seq<char>>,
    pub kernel_source_dir: Option<Seq<char>>,
    pub defconfig_generated: bool,
    pub kernel_config: Option<Seq<char>>,
    pub vmlinux: Option<Seq<char>>,
}

impl View for SourcePackageLayout {
    type V = SourcePackageLayoutV;

    open spec fn view(&self) -> SourcePackageLayoutV {
        SourcePackageLayoutV {
            source_build_dir: self.source_build_dir.deep_view(),
            kernel_source_dir: self.kernel_source_dir.deep_view(),
            defconfig_generated: self.defconfig_generated,
            kernel_config: self.kernel_config.deep_view(),
            vmlinux: self.vmlinux.deep_view(),
        }
    }
}

impl SourcePackageLayoutV {
    /// Every artifact the kernel build needs was resolved.
    pub open spec fn spec_complete(self) -> bool {
        &&& self.source_build_dir is Some
        &&& self.kernel_source_dir is Some
        &&& self.defconfig_generated
        &&& self.kernel_config is Some
        &&& self.vmlinux is Some
    }
}

/// The message of the I/O error naming the first artifact, in
/// resolution order, that could not be resolved.
pub open spec fn spec_layout_error_msg(l: SourcePackageLayoutV) -> Seq<char> {
    if l.source_build_dir is None {
        "cannot find build root of source package"@
    } else if l.kernel_source_dir is None {
        "cannot find kernel source directory"@
    } else if !l.defconfig_generated {
        "cannot generate kernel default config"@
    } else if l.kernel_config is None {
        "cannot find kernel config file"@
    } else {
        "cannot find kernel image vmlinux"@
    }
}

/// The build arguments assembled once every artifact is resolved.
pub open spec fn spec_builder_args(
    w: CliWorkDirV,
    p: PatchInfoV,
    a: crate::patch_info::CliArgumentsV,
    l: SourcePackageLayoutV,
) -> KernelPatchBuilderArgumentsV
    recommends
        l.spec_complete(),
{
    KernelPatchBuilderArgumentsV {
        build_root: w.patch_build_root,
        patch_name: p.patch_name.name,
        source_dir: match l.kernel_source_dir {
            Some(s) => s,
            None => Seq::empty(),
        },
        config: match l.kernel_config {
            Some(s) => s,
            None => Seq::empty(),
        },
        vmlinux: match l.vmlinux {
            Some(s) => s,
            None => Seq::empty(),
        },
        jobs: a.kjobs,
        output_dir: w.patch_output_dir,
        skip_compiler_check: a.skip_compiler_check,
        patch_list: p.file_list,
    }
}

/// The fixed argument list of the external kernel patch compiler:
/// `--name .. --sourcedir .. --config .. --vmlinux .. --jobs ..
/// --output .. --skip-cleanup [--skip-compiler-check]` followed by the
/// patch file paths in list order.
pub open spec fn spec_cmd_args(a: KernelPatchBuilderArgumentsV) -> Seq<Seq<char>> {
    seq![
        "--name"@,
        a.patch_name,
        "--sourcedir"@,
        a.source_dir,
        "--config"@,
        a.config,
        "--vmlinux"@,
        a.vmlinux,
        "--jobs"@,
        spec_decimal(a.jobs as int),
        "--output"@,
        a.output_dir,
        "--skip-cleanup"@,
    ] + (if a.skip_compiler_check {
        seq!["--skip-compiler-check"@]
    } else {
        Seq::<Seq<char>>::empty()
    }) + a.patch_list.map_values(|f: PatchFileV| f.path)
}

/// The fixed environment overlay of the external kernel patch
/// compiler: four build-behavior variables, each pinned to the build
/// root.
pub open spec fn spec_cmd_envs(a: KernelPatchBuilderArgumentsV) -> Seq<(Seq<char>, Seq<char>)> {
    seq![
        ("CACHEDIR"@, a.build_root),
        ("NO_PROFILING_CALLS"@, a.build_root),
        ("DISABLE_AFTER_LOAD"@, a.build_root),
        ("KEEP_JUMP_LABEL"@, a.build_root),
    ]
}

/// The kernel patch build strategy: resolves the build inputs inside
/// the extracted packages and drives the external kernel patch
/// compiler.
pub struct KernelPatchBuilder {
    workdir: CliWorkDir,
}

impl View for KernelPatchBuilder {
    type V = CliWorkDirV;

    closed spec fn view(&self) -> CliWorkDirV {
        self.workdir@
    }
}

impl KernelPatchBuilder {
    pub fn new(workdir: CliWorkDir) -> (r: Self)
        ensures
            r@ == workdir@,
    {
        KernelPatchBuilder { workdir }
    }

    /// Validates the resolved package layout in resolution order and
    /// assembles the typed build arguments. Succeeds exactly when every
    /// artifact was resolved; otherwise the I/O error names the first
    /// missing one, and no build is attempted.
    pub fn parse_builder_args(
        &self,
        patch_info: &PatchInfo,
        args: &CliArguments,
        layout: &SourcePackageLayout,
    ) -> (r: Result<PatchBuilderArguments, Error>)
        ensures
            r is Ok <==> layout@.spec_complete(),
            r matches Ok(a) ==> a matches PatchBuilderArguments::KernelPatch(k) && k@
                == spec_builder_args(self@, patch_info@, args@, layout@),
            r matches Err(e) ==> e matches Error::Io(m) && m@ == spec_layout_error_msg(layout@),
    {
        if layout.source_build_dir.is_none() {
            return Err(
                Error::Io(String::from_str("cannot find build root of source package")),
            );
        }
        let source_dir = match &layout.kernel_source_dir {
            Some(s) => s.clone(),
            None => {
                return Err(Error::Io(String::from_str("cannot find kernel source directory")));
            },
        };
        if !layout.defconfig_generated {
            return Err(Error::Io(String::from_str("cannot generate kernel default config")));
        }
        let config = match &layout.kernel_config {
            Some(s) => s.clone(),
            None => {
                return Err(Error::Io(String::from_str("cannot find kernel config file")));
            },
        };
        let vmlinux = match &layout.vmlinux {
            Some(s) => s.clone(),
            None => {
                return Err(Error::Io(String::from_str("cannot find kernel image vmlinux")));
            },
        };

        let src_list = patch_info.get_file_list();
        let mut patch_list: Vec<PatchFile> = Vec::new();
        let mut i: usize = 0;
        while i < src_list.len()
            invariant
                0 <= i <= src_list.len(),
                patch_list@.len() == i,
                forall|j: int|
                    0 <= j < i ==> (#[trigger] patch_list@[j])@ == src_list@.map_values(
                        |f: PatchFile| f@,
                    )[j],
            decreases src_list.len() - i,
        {
            let ghost pre = patch_list@;
            patch_list.push(src_list[i].duplicate());
            proof {
                assert forall|j: int| 0 <= j < i as int + 1 implies (#[trigger] patch_list@[j])@
                    == src_list@.map_values(|f: PatchFile| f@)[j] by {
                    if j < i as int {
                        assert(patch_list@[j] == pre[j]);
                    }
                }
            }
            i = i + 1;
        }

        let kargs = KernelPatchBuilderArguments {
            build_root: self.workdir.patch_build_root.clone(),
            patch_name: String::from_str(patch_info.get_patch_name().get_name()),
            source_dir,
            config,
            vmlinux,
            jobs: args.kjobs,
            output_dir: self.workdir.patch_output_dir.clone(),
            skip_compiler_check: args.skip_compiler_check,
            patch_list,
        };
        proof {
            assert(kargs@.patch_list =~= patch_info@.file_list);
            assert(kargs@ =~= spec_builder_args(self@, patch_info@, args@, layout@));
        }
        Ok(PatchBuilderArguments::KernelPatch(kargs))
    }

    /// The argument list handed to the external kernel patch compiler,
    /// in the fixed order `spec_cmd_args` states.
    pub fn parse_cmd_args(&self, args: &KernelPatchBuilderArguments) -> (r: Vec<String>)
        ensures
            r.deep_view() == spec_cmd_args(args@),
    {
        let mut cmd: Vec<String> = Vec::new();
        cmd.push(String::from_str("--name"));
        cmd.push(args.patch_name.clone());
        cmd.push(String::from_str("--sourcedir"));
        cmd.push(args.source_dir.clone());
        cmd.push(String::from_str("--config"));
        cmd.push(args.config.clone());
        cmd.push(String::from_str("--vmlinux"));
        cmd.push(args.vmlinux.clone());
        cmd.push(String::from_str("--jobs"));
        cmd.push(usize_to_string(args.jobs));
        cmd.push(String::from_str("--output"));
        cmd.push(args.output_dir.clone());
        cmd.push(String::from_str("--skip-cleanup"));
        if args.skip_compiler_check {
            cmd.push(String::from_str("--skip-compiler-check"));
        }
        let ghost prefix = cmd.deep_view();
        proof {
            assert(prefix =~~= seq![
                "--name"@,
                args@.patch_name,
                "--sourcedir"@,
                args@.source_dir,
                "--config"@,
                args@.config,
                "--vmlinux"@,
                args@.vmlinux,
                "--jobs"@,
                spec_decimal(args@.jobs as int),
                "--output"@,
                args@.output_dir,
                "--skip-cleanup"@,
            ] + (if args@.skip_compiler_check {
                seq!["--skip-compiler-check"@]
            } else {
                Seq::<Seq<char>>::empty()
            }));
        }
        let mut i: usize = 0;
        while i < args.patch_list.len()
            invariant
                0 <= i <= args.patch_list.len(),
                cmd@.len() == prefix.len() + i,
                forall|j: int| 0 <= j < prefix.len() ==> (#[trigger] cmd@[j])@ == prefix[j],
                forall|j: int|
                    prefix.len() <= j < prefix.len() + i ==> (#[trigger] cmd@[j])@
                        == args@.patch_list[j - prefix.len()].path,
            decreases args.patch_list.len() - i,
        {
            let ghost pre = cmd@;
            cmd.push(String::from_str(args.patch_list[i].get_path()));
            proof {
                assert forall|j: int| 0 <= j < pre.len() + 1 implies (#[trigger] cmd@[j])@ == (
                if j < prefix.len() {
                    prefix[j]
                } else {
                    args@.patch_list[j - prefix.len()].path
                }) by {
                    if j < pre.len() {
                        assert(cmd@[j] == pre[j]);
                    }
                }
            }
            i = i + 1;
        }
        proof {
            assert(cmd.deep_view() =~~= spec_cmd_args(args@));
        }
        cmd
    }

    /// The environment overlay handed to the external kernel patch
    /// compiler, as `spec_cmd_envs` states.
    pub fn parse_cmd_envs(&self, args: &KernelPatchBuilderArguments) -> (r: Vec<(String, String)>)
        ensures
            r@.map_values(|p: (String, String)| (p.0@, p.1@)) == spec_cmd_envs(args@),
    {
        let mut envs: Vec<(String, String)> = Vec::new();
        envs.push((String::from_str("CACHEDIR"), args.build_root.clone()));
        envs.push((String::from_str("NO_PROFILING_CALLS"), args.build_root.clone()));
        envs.push((String::from_str("DISABLE_AFTER_LOAD"), args.build_root.clone()));
        envs.push((String::from_str("KEEP_JUMP_LABEL"), args.build_root.clone()));
        proof {
            assert(envs@.map_values(|p: (String, String)| (p.0@, p.1@)) =~~= spec_cmd_envs(args@));
        }
        envs
    }

    /// The external kernel patch compiler invocation for the parsed
    /// kernel build arguments. The runtime spawns it and judges the
    /// exit with `check_exit_code`.
    pub fn build_patch_cmd(&self, args: &PatchBuilderArguments) -> (r: Invocation)
        requires
            args is KernelPatch,
        ensures
            r.program@ == "kpatch-build"@,
            args matches PatchBuilderArguments::KernelPatch(k) ==> r.args.deep_view()
                == spec_cmd_args(k@) && r.envs@.map_values(|p: (String, String)| (p.0@, p.1@))
                == spec_cmd_envs(k@),
    {
        match args {
            PatchBuilderArguments::KernelPatch(k) => Invocation {
                program: String::from_str("kpatch-build"),
                args: self.parse_cmd_args(k),
                envs: self.parse_cmd_envs(k),
            },
            PatchBuilderArguments::UserPatch => unreached(),
        }
    }

    /// After a successful kernel build, records the kernel image's
    /// well-known display name and path into the descriptor, purely for
    /// display; the build itself never reads the association.
    pub fn write_patch_info(&self, patch_info: &mut PatchInfo, _args: &PatchBuilderArguments) -> (r:
        Result<(), Error>)
        ensures
            r is Ok,
            final(patch_info)@ == (PatchInfoV {
                target_elfs: old(patch_info)@.target_elfs + seq![("vmlinux"@, "vmlinux"@)],
                ..old(patch_info)@
            }),
    {
        patch_info.insert_target_elf(String::from_str("vmlinux"), String::from_str("vmlinux"));
        Ok(())
    }
}

} // verus!
