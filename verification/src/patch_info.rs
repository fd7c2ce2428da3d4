use vstd::prelude::*;
use vstd::string::*;

use crate::error::Error;

verus! {

/// Number of leading hex digits kept from a SHA-256 digest when it is
/// used as a derived version string or a per-file content hash.
pub const PATCH_VERSION_DIGITS: usize = 8;

/// The identity triple of a patch or of the software it targets.
/// The version of a patch is content-derived, not user-assigned.
#[derive(Debug, Clone)]
pub struct PatchName {
    name: String,
    version: String,
    release: String,
}

/// Mathematical value of a `PatchName`.
#[verifier::ext_equal]
pub ghost struct PatchNameV {
    pub name: Seq<char>,
    pub version: Seq<char>,
    pub release: Seq<char>,
}

impl View for PatchName {
    type V = PatchNameV;

    closed spec fn view(&self) -> PatchNameV {
        PatchNameV { name: self.name@, version: self.version@, release: self.release@ }
    }
}

impl PatchName {
    /// Renders `name-version-release`.
    pub open spec fn spec_full_name(v: PatchNameV) -> Seq<char> {
        v.name + "-"@ + v.version + "-"@ + v.release
    }

    pub fn new(name: String, version: String, release: String) -> (r: Self)
        ensures
            r@ == (PatchNameV { name: name@, version: version@, release: release@ }),
    {
        PatchName { name, version, release }
    }

    pub fn get_name(&self) -> (r: &str)
        ensures
            r@ == self@.name,
    {
        self.name.as_str()
    }

    pub fn get_version(&self) -> (r: &str)
        ensures
            r@ == self@.version,
    {
        self.version.as_str()
    }

    pub fn get_release(&self) -> (r: &str)
        ensures
            r@ == self@.release,
    {
        self.release.as_str()
    }

    /// The textual rendering `name-version-release`.
    pub fn full_name(&self) -> (r: String)
        ensures
            r@ == Self::spec_full_name(self@),
    {
        let mut s = self.name.clone();
        s.append("-");
        s.append(self.version.as_str());
        s.append("-");
        s.append(self.release.as_str());
        s
    }
}

impl PartialEq for PatchName {
    fn eq(&self, other: &Self) -> (r: bool) {
        self.name == other.name && self.version == other.version && self.release == other.release
    }
}

impl vstd::std_specs::cmp::PartialEqSpecImpl for PatchName {
    open spec fn obeys_eq_spec() -> bool {
        true
    }

    open spec fn eq_spec(&self, other: &Self) -> bool {
        self@.name == other@.name && self@.version == other@.version && self@.release
            == other@.release
    }
}

/// The two mutually exclusive patch targets: a running kernel image or
/// a running user-space binary.
#[derive(Debug, Clone, Copy, PartialEq, Eq, Structural)]
pub enum PatchType {
    UserPatch,
    KernelPatch,
}

impl PatchType {
    pub open spec fn spec_display(self) -> Seq<char> {
        match self {
            PatchType::UserPatch => "UserPatch"@,
            PatchType::KernelPatch => "KernelPatch"@,
        }
    }

    /// The textual rendering of the patch type.
    pub fn display_string(&self) -> (r: String)
        ensures
            r@ == self.spec_display(),
    {
        match self {
            PatchType::UserPatch => String::from_str("UserPatch"),
            PatchType::KernelPatch => String::from_str("KernelPatch"),
        }
    }
}

/// What the filesystem reports about one patch input file. The library
/// never touches the disk itself: the runtime resolves each configured
/// path and hands the findings in through this record.
pub struct FileProbe {
    /// The path resolves to a readable regular file.
    pub readable: bool,
    /// File name component of the canonical path. When the file is not
    /// readable, the field is not consulted.
    pub name: String,
    /// Canonical absolute path, symbolic links resolved. When the file
    /// is not readable, holds the configured path as given.
    pub path: String,
    /// Hex SHA-256 digest of the file's bytes. When the file is not
    /// readable, the field is not consulted.
    pub digest: String,
}

/// Mathematical value of a `FileProbe`.
#[verifier::ext_equal]
pub ghost struct FileProbeV {
    pub readable: bool,
    pub name: Seq<char>,
    pub path: Seq<char>,
    pub digest: Seq<char>,
}

impl View for FileProbe {
    type V = FileProbeV;

    open spec fn view(&self) -> FileProbeV {
        FileProbeV {
            readable: self.readable,
            name: self.name@,
            path: self.path@,
            digest: self.digest@,
        }
    }
}

impl FileProbe {
    /// A readable file always comes with a full hex SHA-256 digest.
    pub open spec fn wf(&self) -> bool {
        self.readable ==> self.digest@.len() >= PATCH_VERSION_DIGITS
    }
}

/// The kept prefix of a hex digest.
pub open spec fn spec_hash_prefix(digest: Seq<char>) -> Seq<char> {
    digest.subrange(0, PATCH_VERSION_DIGITS as int)
}

/// The message of the error reported for an unreadable patch input file.
pub open spec fn spec_unreadable_msg(path: Seq<char>) -> Seq<char> {
    "cannot access patch file: "@ + path
}

/// One patch input file: display name, canonical path, and the kept
/// prefix of the content hash. Constructed only from a probe of a
/// readable regular file; the hash is derived once at construction.
#[derive(Debug, Clone)]
pub struct PatchFile {
    name: String,
    path: String,
    hash: String,
}

/// Mathematical value of a `PatchFile`.
#[verifier::ext_equal]
pub ghost struct PatchFileV {
    pub name: Seq<char>,
    pub path: Seq<char>,
    pub hash: Seq<char>,
}

impl View for PatchFile {
    type V = PatchFileV;

    closed spec fn view(&self) -> PatchFileV {
        PatchFileV { name: self.name@, path: self.path@, hash: self.hash@ }
    }
}

/// The `PatchFile` derived from the probe of a readable file.
pub open spec fn spec_patch_file(f: FileProbeV) -> PatchFileV {
    PatchFileV { name: f.name, path: f.path, hash: spec_hash_prefix(f.digest) }
}

impl PatchFile {
    /// Builds the record for one patch input file. Fails, returning no
    /// record at all, exactly when the path did not resolve to a
    /// readable regular file; the error names that path.
    pub fn new(file: &FileProbe) -> (r: Result<Self, Error>)
        requires
            file.wf(),
        ensures
            r is Ok <==> file.readable,
            r matches Ok(f) ==> f@ == spec_patch_file(file@),
            r matches Err(e) ==> e matches Error::Io(m) && m@ == spec_unreadable_msg(file.path@),
    {
        if !file.readable {
            let mut msg = String::from_str("cannot access patch file: ");
            msg.append(file.path.as_str());
            return Err(Error::Io(msg));
        }
        let hash_str = file.digest.as_str().substring_char(0, PATCH_VERSION_DIGITS);
        Ok(PatchFile {
            name: file.name.clone(),
            path: file.path.clone(),
            hash: String::from_str(hash_str),
        })
    }

    /// A copy of the record with the same fields.
    pub fn duplicate(&self) -> (r: Self)
        ensures
            r@ == self@,
    {
        PatchFile { name: self.name.clone(), path: self.path.clone(), hash: self.hash.clone() }
    }

    pub fn get_name(&self) -> (r: &str)
        ensures
            r@ == self@.name,
    {
        self.name.as_str()
    }

    pub fn set_name(&mut self, value: String)
        ensures
            final(self)@ == (PatchFileV { name: value@, ..old(self)@ }),
    {
        self.name = value;
    }

    pub fn get_path(&self) -> (r: &str)
        ensures
            r@ == self@.path,
    {
        self.path.as_str()
    }

    pub fn set_path(&mut self, value: String)
        ensures
            final(self)@ == (PatchFileV { path: value@, ..old(self)@ }),
    {
        self.path = value;
    }

    pub fn get_hash(&self) -> (r: &str)
        ensures
            r@ == self@.hash,
    {
        self.hash.as_str()
    }

    pub fn set_hash(&mut self, value: String)
        ensures
            final(self)@ == (PatchFileV { hash: value@, ..old(self)@ }),
    {
        self.hash = value;
    }
}

/// The validated build configuration the command line hands in.
pub struct CliArguments {
    pub patch_name: String,
    /// Configured version string, kept as the release of the derived
    /// identity; the version itself is content-derived.
    pub patch_version: String,
    /// Configured patch input file paths, in order.
    pub patches: Vec<String>,
    /// Configured source path, probed for the kernel source marker.
    pub source: String,
    pub target_name: Option<String>,
    pub target_version: Option<String>,
    pub target_release: Option<String>,
    pub target_license: Option<String>,
    pub patch_summary: String,
    /// Parallel job count handed to the kernel patch build tool.
    pub kjobs: usize,
    pub skip_compiler_check: bool,
}

/// Mathematical value of a `CliArguments`.
#[verifier::ext_equal]
pub ghost struct CliArgumentsV {
    pub patch_name: Seq<char>,
    pub patch_version: Seq<char>,
    pub patches: Seq<Seq<char>>,
    pub source: Seq<char>,
    pub target_name: Option<Seq<char>>,
    pub target_version: Option<Seq<char>>,
    pub target_release: Option<Seq<char>>,
    pub target_license: Option<Seq<char>>,
    pub patch_summary: Seq<char>,
    pub kjobs: usize,
    pub skip_compiler_check: bool,
}

impl View for CliArguments {
    type V = CliArgumentsV;

    open spec fn view(&self) -> CliArgumentsV {
        CliArgumentsV {
            patch_name: self.patch_name@,
            patch_version: self.patch_version@,
            patches: self.patches.deep_view(),
            source: self.source@,
            target_name: self.target_name.deep_view(),
            target_version: self.target_version.deep_view(),
            target_release: self.target_release.deep_view(),
            target_license: self.target_license.deep_view(),
            patch_summary: self.patch_summary@,
            kjobs: self.kjobs,
            skip_compiler_check: self.skip_compiler_check,
        }
    }
}

/// What the filesystem collaborators report about the configured
/// inputs, gathered by the runtime before identity derivation.
pub struct SourceProbe {
    /// Hex SHA-256 digest over the ordered list of patch input files.
    pub file_list_digest: String,
    /// A kernel source root marker directory was found under the
    /// configured source path.
    pub kernel_marker_found: bool,
    /// Per input file findings, one for each configured patch path, in
    /// configuration order.
    pub files: Vec<FileProbe>,
}

/// Mathematical value of a `SourceProbe`.
#[verifier::ext_equal]
pub ghost struct SourceProbeV {
    pub file_list_digest: Seq<char>,
    pub kernel_marker_found: bool,
    pub files: Seq<FileProbeV>,
}

impl View for SourceProbe {
    type V = SourceProbeV;

    open spec fn view(&self) -> SourceProbeV {
        SourceProbeV {
            file_list_digest: self.file_list_digest@,
            kernel_marker_found: self.kernel_marker_found,
            files: self.files@.map_values(|f: FileProbe| f@),
        }
    }
}

impl SourceProbe {
    /// The aggregate digest is a full hex SHA-256 digest and each file
    /// probe is well formed.
    pub open spec fn wf(&self) -> bool {
        &&& self.file_list_digest@.len() >= PATCH_VERSION_DIGITS
        &&& forall|i: int|
            0 <= i < self@.files.len() ==> (#[trigger] self@.files[i]).readable
                ==> self@.files[i].digest.len() >= PATCH_VERSION_DIGITS
    }
}

/// The patch type selected by the one-shot classification: a kernel
/// patch exactly when the kernel source marker was found.
pub open spec fn spec_patch_type(kernel_marker_found: bool) -> PatchType {
    if kernel_marker_found {
        PatchType::KernelPatch
    } else {
        PatchType::UserPatch
    }
}

/// The target identity is defined only when all three of its parts are.
pub open spec fn spec_target_name(a: CliArgumentsV) -> Option<PatchNameV> {
    match (a.target_name, a.target_version, a.target_release) {
        (Some(n), Some(v), Some(r)) => Some(PatchNameV { name: n, version: v, release: r }),
        _ => None,
    }
}

/// The license, defaulting to the undefined sentinel.
pub open spec fn spec_license(a: CliArgumentsV) -> Seq<char> {
    match a.target_license {
        Some(l) => l,
        None => "undefined"@,
    }
}

/// The descriptor derived from a configuration and the filesystem
/// findings. Construction is a function of these two values alone.
/// The version is content-derived — the kept prefix of the digest over
/// the ordered file list — never user-chosen; the configured version
/// string is kept as the release.
pub open spec fn spec_patch_info(a: CliArgumentsV, p: SourceProbeV) -> PatchInfoV {
    PatchInfoV {
        patch_name: PatchNameV {
            name: a.patch_name,
            version: spec_hash_prefix(p.file_list_digest),
            release: a.patch_version,
        },
        patch_type: spec_patch_type(p.kernel_marker_found),
        target_name: spec_target_name(a),
        license: spec_license(a),
        summary: a.patch_summary,
        file_list: p.files.map_values(|f: FileProbeV| spec_patch_file(f)),
        target_elfs: Seq::empty(),
    }
}

/// The aggregate patch descriptor.
#[derive(Debug, Clone)]
pub struct PatchInfo {
    patch_name: PatchName,
    patch_type: PatchType,
    target_name: Option<PatchName>,
    license: String,
    summary: String,
    file_list: Vec<PatchFile>,
    target_elfs: Vec<(String, String)>,
}

/// Mathematical value of a `PatchInfo`.
#[verifier::ext_equal]
pub ghost struct PatchInfoV {
    pub patch_name: PatchNameV,
    pub patch_type: PatchType,
    pub target_name: Option<PatchNameV>,
    pub license: Seq<char>,
    pub summary: Seq<char>,
    pub file_list: Seq<PatchFileV>,
    /// Display labels and representative paths recorded by the builder
    /// after a successful build, in insertion order.
    pub target_elfs: Seq<(Seq<char>, Seq<char>)>,
}

impl View for PatchInfo {
    type V = PatchInfoV;

    closed spec fn view(&self) -> PatchInfoV {
        PatchInfoV {
            patch_name: self.patch_name@,
            patch_type: self.patch_type,
            target_name: match self.target_name {
                Some(t) => Some(t@),
                None => None,
            },
            license: self.license@,
            summary: self.summary@,
            file_list: self.file_list@.map_values(|f: PatchFile| f@),
            target_elfs: self.target_elfs.deep_view(),
        }
    }
}

impl PatchInfo {
    /// Derives the full patch descriptor from the validated
    /// configuration and the filesystem findings, in order: identity
    /// derivation (the version is the kept digest prefix over the
    /// ordered file list, never user-chosen), patch type
    /// classification, target identity, license defaulting, summary
    /// copy, per-file record construction. The first unreadable input
    /// file aborts the whole construction with the error naming it; no
    /// partially constructed descriptor exists.
    pub fn new(args: &CliArguments, probe: &SourceProbe) -> (r: Result<Self, Error>)
        requires
            probe.wf(),
            probe.files@.len() == args.patches@.len(),
        ensures
            r is Ok <==> (forall|i: int|
                0 <= i < probe@.files.len() ==> (#[trigger] probe@.files[i]).readable),
            r matches Ok(info) ==> info@ == spec_patch_info(args@, probe@),
            r matches Err(e) ==> exists|i: int|
                {
                    &&& 0 <= i < probe@.files.len()
                    &&& !(#[trigger] probe@.files[i]).readable
                    &&& forall|j: int| 0 <= j < i ==> (#[trigger] probe@.files[j]).readable
                    &&& e matches Error::Io(m) && m@ == spec_unreadable_msg(probe@.files[i].path)
                },
    {
        let version_str = probe.file_list_digest.as_str().substring_char(0, PATCH_VERSION_DIGITS);
        let patch_name = PatchName {
            name: args.patch_name.clone(),
            version: String::from_str(version_str),
            release: args.patch_version.clone(),
        };

        let patch_type = if probe.kernel_marker_found {
            PatchType::KernelPatch
        } else {
            PatchType::UserPatch
        };

        let target_name = match (&args.target_name, &args.target_version, &args.target_release) {
            (Some(n), Some(v), Some(r)) => Some(
                PatchName { name: n.clone(), version: v.clone(), release: r.clone() },
            ),
            _ => None,
        };

        let license = match &args.target_license {
            Some(l) => l.clone(),
            None => String::from_str("undefined"),
        };

        let summary = args.patch_summary.clone();

        let mut file_list: Vec<PatchFile> = Vec::new();
        let mut idx: usize = 0;
        while idx < probe.files.len()
            invariant
                probe.wf(),
                0 <= idx <= probe.files.len(),
                probe@.files.len() == probe.files.len(),
                forall|j: int| 0 <= j < idx ==> (#[trigger] probe@.files[j]).readable,
                file_list@.len() == idx,
                forall|j: int|
                    0 <= j < idx ==> (#[trigger] file_list@[j])@ == spec_patch_file(
                        probe@.files[j],
                    ),
            decreases probe.files.len() - idx,
        {
            let file = &probe.files[idx];
            proof {
                assert(file@ == probe@.files[idx as int]);
                assert(file.wf());
            }
            match PatchFile::new(file) {
                Ok(f) => {
                    let ghost pre = file_list@;
                    let ghost fv = f@;
                    file_list.push(f);
                    proof {
                        assert forall|j: int| 0 <= j < idx as int + 1 implies (
                        #[trigger] file_list@[j])@ == spec_patch_file(probe@.files[j]) by {
                            if j < idx as int {
                                assert(file_list@[j] == pre[j]);
                            } else {
                                assert((file_list@[j])@ == fv);
                            }
                        }
                    }
                },
                Err(e) => {
                    proof {
                        assert(!(probe@.files[idx as int]).readable);
                    }
                    return Err(e);
                },
            }
            idx = idx + 1;
        }

        let info = PatchInfo {
            patch_name,
            patch_type,
            target_name,
            license,
            summary,
            file_list,
            target_elfs: Vec::new(),
        };
        proof {
            assert(info@.file_list =~= probe@.files.map_values(|f: FileProbeV| spec_patch_file(f)));
            assert(info@ =~= spec_patch_info(args@, probe@));
        }
        Ok(info)
    }

    pub fn get_patch_name(&self) -> (r: &PatchName)
        ensures
            r@ == self@.patch_name,
    {
        &self.patch_name
    }

    pub fn get_patch_type(&self) -> (r: PatchType)
        ensures
            r == self@.patch_type,
    {
        self.patch_type
    }

    pub fn get_target_name(&self) -> (r: Option<&PatchName>)
        ensures
            match r {
                Some(t) => self@.target_name matches Some(tv) && t@ == tv,
                None => self@.target_name is None,
            },
    {
        self.target_name.as_ref()
    }

    pub fn get_file_list(&self) -> (r: &Vec<PatchFile>)
        ensures
            r@.map_values(|f: PatchFile| f@) == self@.file_list,
    {
        &self.file_list
    }

    pub fn get_license(&self) -> (r: &str)
        ensures
            r@ == self@.license,
    {
        self.license.as_str()
    }

    pub fn get_summary(&self) -> (r: &str)
        ensures
            r@ == self@.summary,
    {
        self.summary.as_str()
    }

    /// The display labels and representative paths recorded by the
    /// builder, in insertion order.
    pub fn get_target_elfs(&self) -> (r: &Vec<(String, String)>)
        ensures
            r.deep_view() == self@.target_elfs,
    {
        &self.target_elfs
    }

    /// Records one build-derived association, purely for display.
    pub fn insert_target_elf(&mut self, name: String, path: String)
        ensures
            final(self)@ == (PatchInfoV {
                target_elfs: old(self)@.target_elfs + seq![(name@, path@)],
                ..old(self)@
            }),
    {
        let ghost gname = name@;
        let ghost gpath = path@;
        self.target_elfs.push((name, path));
        proof {
            assert(self@.target_elfs =~= old(self)@.target_elfs + seq![(gname, gpath)]);
            assert(self@ =~= (PatchInfoV {
                target_elfs: old(self)@.target_elfs + seq![(gname, gpath)],
                ..old(self)@
            }));
        }
    }
}

/// The fixed header of the descriptor's textual report.
pub open spec fn spec_display_header(v: PatchInfoV) -> Seq<char> {
    v.summary + "\n\nname:    "@ + v.patch_name.name + "\ntype:    "@ + v.patch_type.spec_display()
        + "\nversion: "@ + v.patch_name.version + "\nrelease: "@ + v.patch_name.release
        + "\nlicense: "@ + v.license + "\ntarget:  "@ + (match v.target_name {
        Some(t) => PatchName::spec_full_name(t),
        None => "undefined"@,
    }) + "\n\npatch list:"@
}

/// One report line per file, `name hash`, in list order.
pub open spec fn spec_file_lines(files: Seq<PatchFileV>) -> Seq<char>
    decreases files.len(),
{
    if files.len() == 0 {
        Seq::empty()
    } else {
        spec_file_lines(files.drop_last()) + "\n"@ + files.last().name + " "@ + files.last().hash
    }
}

/// The descriptor's full line-oriented human report.
pub open spec fn spec_display(v: PatchInfoV) -> Seq<char> {
    spec_display_header(v) + spec_file_lines(v.file_list)
}

impl PatchInfo {
    /// Renders the stable human report: summary, identity, type,
    /// license and target, then one line per input file.
    pub fn display_string(&self) -> (r: String)
        ensures
            r@ == spec_display(self@),
    {
        let mut s = self.summary.clone();
        s.append("\n\nname:    ");
        s.append(self.patch_name.name.as_str());
        s.append("\ntype:    ");
        let t = self.patch_type.display_string();
        s.append(t.as_str());
        s.append("\nversion: ");
        s.append(self.patch_name.version.as_str());
        s.append("\nrelease: ");
        s.append(self.patch_name.release.as_str());
        s.append("\nlicense: ");
        s.append(self.license.as_str());
        s.append("\ntarget:  ");
        match &self.target_name {
            Some(t) => {
                let fu = t.full_name();
                s.append(fu.as_str());
            },
            None => {
                s.append("undefined");
            },
        }
        s.append("\n\npatch list:");
        proof {
            assert(s@ == spec_display_header(self@));
            assert(s@ =~= spec_display_header(self@) + spec_file_lines(
                self@.file_list.take(0int),
            ));
        }
        let mut i: usize = 0;
        while i < self.file_list.len()
            invariant
                0 <= i <= self.file_list.len(),
                self@.file_list.len() == self.file_list.len(),
                s@ == spec_display_header(self@) + spec_file_lines(self@.file_list.take(i as int)),
            decreases self.file_list.len() - i,
        {
            let f = &self.file_list[i];
            s.append("\n");
            s.append(f.name.as_str());
            s.append(" ");
            s.append(f.hash.as_str());
            proof {
                assert(self@.file_list.take(i as int + 1).drop_last() =~= self@.file_list.take(
                    i as int,
                ));
                assert(self@.file_list.take(i as int + 1).last() == self@.file_list[i as int]);
                assert(s@ =~= spec_display_header(self@) + spec_file_lines(
                    self@.file_list.take(i as int + 1),
                ));
            }
            i = i + 1;
        }
        proof {
            assert(self@.file_list.take(self.file_list.len() as int) =~= self@.file_list);
        }
        s
    }
}

/// Identity derivation is deterministic: two constructions whose
/// configuration and filesystem findings agree as values derive the
/// same descriptor, the same version string included.
pub proof fn lemma_patch_info_deterministic(
    a1: CliArgumentsV,
    p1: SourceProbeV,
    a2: CliArgumentsV,
    p2: SourceProbeV,
)
    requires
        a1 == a2,
        p1 == p2,
    ensures
        spec_patch_info(a1, p1) == spec_patch_info(a2, p2),
{
}

/// The derived version string depends on the digest of the ordered
/// file list alone: two constructions that agree on that digest agree
/// on the version, whatever else differs between them.
pub proof fn lemma_version_from_digest_alone(
    a1: CliArgumentsV,
    p1: SourceProbeV,
    a2: CliArgumentsV,
    p2: SourceProbeV,
)
    requires
        p1.file_list_digest == p2.file_list_digest,
    ensures
        spec_patch_info(a1, p1).patch_name.version == spec_patch_info(a2, p2).patch_name.version,
{
}

/// Reordering the files or altering their content changes the digest
/// of the ordered file list; whenever that change reaches the kept
/// prefix, the derived version strings differ. The step from changed
/// bytes to a changed digest is the hash collaborator's collision
/// resistance, which no contract of this library can state.
pub proof fn lemma_distinct_digest_prefixes_distinct_versions(
    a1: CliArgumentsV,
    p1: SourceProbeV,
    a2: CliArgumentsV,
    p2: SourceProbeV,
)
    requires
        spec_hash_prefix(p1.file_list_digest) != spec_hash_prefix(p2.file_list_digest),
    ensures
        spec_patch_info(a1, p1).patch_name.version != spec_patch_info(a2, p2).patch_name.version,
{
}

} // verus!
