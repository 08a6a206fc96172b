//! The bundling run: which package types are built, in which order, and how
//! each producer's output becomes an artifact record.

use vstd::prelude::*;
use vstd::string::StringExecFns;
use crate::error::ProducerError;
use crate::package::BundledArtifact;
use crate::package::PackageType;
use crate::settings::config::Settings;

verus! {

/// The operating system the bundler runs on.
#[derive(Debug, Clone, Copy, PartialEq, Eq, Structural)]
pub enum HostOs {
    /// Linux.
    Linux,
    /// macOS.
    MacOs,
    /// Any other system.
    Other,
}

/// What a bundling run asks of its caller next.
#[derive(Debug)]
pub enum BundleStep {
    /// Run the producer of this package type and record what it returns.
    Produce(PackageType),
    /// The run has failed with this error; nothing more is to be produced.
    Fail(ProducerError),
    /// Every package type has been produced.
    Finished,
    /// The run failed earlier.
    Aborted,
}

/// The package types built where none are asked for: the Linux packages on
/// Linux, with the Windows installer where its compiler is at hand; the
/// bundle and the disk image on macOS; nothing elsewhere.
pub open spec fn default_types(host: HostOs, has_makensis: bool) -> Seq<PackageType> {
    match host {
        HostOs::Linux => if has_makensis {
            seq![PackageType::Deb, PackageType::Rpm, PackageType::AppImage, PackageType::Exe]
        } else {
            seq![PackageType::Deb, PackageType::Rpm, PackageType::AppImage]
        },
        HostOs::MacOs => seq![PackageType::MacOsBundle, PackageType::Dmg],
        HostOs::Other => Seq::empty(),
    }
}

/// The package types of a run: those asked for, in the order asked, and the
/// defaults of the host where none are.
pub open spec fn planned_types(
    requested: Option<Seq<PackageType>>,
    host: HostOs,
    has_makensis: bool,
) -> Seq<PackageType> {
    match requested {
        Some(types) => types,
        None => default_types(host, has_makensis),
    }
}

/// Whether the host has a producer for the package type.
pub open spec fn supported_on(t: PackageType, host: HostOs) -> bool {
    match host {
        HostOs::Linux => t == PackageType::Deb || t == PackageType::Rpm || t
            == PackageType::AppImage || t == PackageType::Exe,
        HostOs::MacOs => t == PackageType::MacOsBundle || t == PackageType::Dmg,
        HostOs::Other => false,
    }
}

/// The sum of the sizes that are known.
pub open spec fn total_size(sizes: Seq<Option<u64>>) -> nat
    decreases sizes.len(),
{
    if sizes.len() == 0 {
        0
    } else {
        total_size(sizes.drop_last()) + match sizes.last() {
            Some(n) => n as nat,
            None => 0nat,
        }
    }
}

/// Every path was found on disk: each has a size.
pub open spec fn all_present(sizes: Seq<Option<u64>>) -> bool {
    forall|i: int| 0 <= i < sizes.len() ==> (#[trigger] sizes[i]) is Some
}

/// The index of the first path that was not found on disk, or the number of
/// paths where all were found.
pub open spec fn first_absent(sizes: Seq<Option<u64>>) -> int
    decreases sizes.len(),
{
    if sizes.len() == 0 {
        0
    } else if first_absent(sizes.drop_last()) < sizes.len() - 1 {
        first_absent(sizes.drop_last())
    } else if sizes.last() is None {
        sizes.len() - 1
    } else {
        sizes.len() as int
    }
}

/// The text of the report on what cannot be recorded although there is a path.
pub open spec fn produced_defect(paths: Seq<String>, sizes: Seq<Option<u64>>) -> Seq<char> {
    if sizes.len() != paths.len() {
        "reading artifact metadata: sizes are missing"@
    } else if !all_present(sizes) {
        "reading artifact metadata: "@ + paths[first_absent(sizes)]@
    } else {
        "artifact sizes exceed 64 bits"@
    }
}

/// The first absent path lies within the list, is absent, and there is none exactly where every path was found.
pub proof fn lemma_first_absent(sizes: Seq<Option<u64>>)
    ensures
        0 <= first_absent(sizes) <= sizes.len(),
        first_absent(sizes) == sizes.len() <==> all_present(sizes),
        first_absent(sizes) < sizes.len() ==> sizes[first_absent(sizes)] is None,
    decreases sizes.len(),
{
    if sizes.len() > 0 {
        let before = sizes.drop_last();
        lemma_first_absent(before);
        if all_present(sizes) {
            assert forall|i: int| 0 <= i < before.len() implies (#[trigger] before[i]) is Some by {
                assert(sizes[i] is Some);
            }
        }
        if first_absent(before) < before.len() {
            assert(sizes[first_absent(before)] == before[first_absent(before)]);
        } else if sizes.last() is Some {
            assert forall|i: int| 0 <= i < sizes.len() implies (#[trigger] sizes[i]) is Some by {
                if i < before.len() {
                    assert(before[i] is Some);
                }
            }
        } else {
            assert(sizes[sizes.len() - 1] is None);
        }
    }
}

/// The first absent path of a list is the first absent path of each of its
/// beginnings that has one.
pub proof fn lemma_first_absent_stays(sizes: Seq<Option<u64>>, n: int)
    requires
        0 <= n <= sizes.len(),
        first_absent(sizes.subrange(0, n)) < n,
    ensures
        first_absent(sizes) == first_absent(sizes.subrange(0, n)),
    decreases sizes.len() - n,
{
    if n < sizes.len() {
        assert(sizes.subrange(0, n + 1).drop_last() =~= sizes.subrange(0, n));
        lemma_first_absent_stays(sizes, n + 1);
    } else {
        assert(sizes.subrange(0, n) =~= sizes);
    }
}

/// What a producer returned can be recorded: there is a path, every path
/// was found on disk, and the sizes add up to a 64-bit number.
pub open spec fn recordable(paths: Seq<String>, sizes: Seq<Option<u64>>) -> bool {
    &&& paths.len() > 0
    &&& sizes.len() == paths.len()
    &&& all_present(sizes)
    &&& total_size(sizes) <= u64::MAX
}

/// Whether the host has a producer for the package type.
pub fn is_supported_on(t: PackageType, host: HostOs) -> (r: bool)
    ensures
        r == supported_on(t, host),
{
    match host {
        HostOs::Linux => match t {
            PackageType::Deb | PackageType::Rpm | PackageType::AppImage | PackageType::Exe => true,
            _ => false,
        },
        HostOs::MacOs => match t {
            PackageType::MacOsBundle | PackageType::Dmg => true,
            _ => false,
        },
        HostOs::Other => false,
    }
}

/// The package types of a run on the given host.
pub fn determine_platform_types(
    requested: Option<&Vec<PackageType>>,
    host: HostOs,
    has_makensis: bool,
) -> (r: Vec<PackageType>)
    ensures
        r@ == planned_types(
            match requested {
                Some(types) => Some(types@),
                None => None,
            },
            host,
            has_makensis,
        ),
{
    let mut r: Vec<PackageType> = Vec::new();
    match requested {
        Some(types) => {
            let mut i: usize = 0;
            while i < types.len()
                invariant
                    i <= types.len(),
                    r@ == types@.subrange(0, i as int),
                decreases types.len() - i,
            {
                r.push(types[i]);
                i += 1;
            }
            proof {
                assert(types@.subrange(0, types.len() as int) =~= types@);
            }
        },
        None => {
            match host {
                HostOs::Linux => {
                    r.push(PackageType::Deb);
                    r.push(PackageType::Rpm);
                    r.push(PackageType::AppImage);
                    if has_makensis {
                        r.push(PackageType::Exe);
                    }
                },
                HostOs::MacOs => {
                    r.push(PackageType::MacOsBundle);
                    r.push(PackageType::Dmg);
                },
                HostOs::Other => {},
            }
            proof {
                assert(r@ =~= default_types(host, has_makensis));
            }
        },
    }
    r
}

/// The total size of what a producer returned, where it can be recorded.
/// No path at all is the producer's own fault and reported as such; a path
/// that is not on disk breaks the producer's word and is reported as an
/// I/O failure.
pub fn produced_size(package_type: PackageType, paths: &Vec<String>, sizes: &Vec<Option<u64>>) -> (r:
    Result<u64, ProducerError>)
    ensures
        match r {
            Ok(total) => recordable(paths@, sizes@) && total as nat == total_size(sizes@),
            Err(e) => {
                &&& !recordable(paths@, sizes@)
                &&& paths.len() == 0 <==> e is NoOutputPaths
                &&& e matches ProducerError::NoOutputPaths(t) ==> t == package_type
                &&& (paths.len() > 0 && !(sizes.len() == paths.len() && all_present(sizes@))) <==> e is IoError
                &&& (paths.len() > 0 && sizes.len() == paths.len() && all_present(sizes@)) <==> e is GenericError
                &&& e matches ProducerError::IoError(text) ==> text@ == produced_defect(paths@, sizes@)
                &&& e matches ProducerError::GenericError(text) ==> text@ == produced_defect(
                    paths@,
                    sizes@,
                )
            },
        },
{
    if paths.len() == 0 {
        return Err(ProducerError::NoOutputPaths(package_type));
    }
    if sizes.len() != paths.len() {
        return Err(ProducerError::IoError(String::from_str("reading artifact metadata: sizes are missing")));
    }
    let mut total: u64 = 0;
    let mut overflow = false;
    let mut i: usize = 0;
    while i < sizes.len()
        invariant
            i <= sizes.len(),
            sizes.len() == paths.len(),
            all_present(sizes@.subrange(0, i as int)),
            !overflow ==> total as nat == total_size(sizes@.subrange(0, i as int)),
            overflow ==> total_size(sizes@.subrange(0, i as int)) > u64::MAX,
        decreases sizes.len() - i,
    {
        proof {
            assert(sizes@.subrange(0, i + 1).drop_last() =~= sizes@.subrange(0, i as int));
        }
        match sizes[i] {
            None => {
                proof {
                    assert(!(sizes@[i as int] is Some));
                    let now = sizes@.subrange(0, i + 1);
                    lemma_first_absent(sizes@.subrange(0, i as int));
                    assert(now.last() is None);
                    assert(first_absent(now) == i);
                    lemma_first_absent_stays(sizes@, i + 1);
                }
                let mut text = String::from_str("reading artifact metadata: ");
                text.append(paths[i].as_str());
                return Err(ProducerError::IoError(text));
            },
            Some(n) => {
                if !overflow {
                    if n > u64::MAX - total {
                        overflow = true;
                    } else {
                        total = total + n;
                    }
                }
            },
        }
        proof {
            let now = sizes@.subrange(0, i + 1);
            assert forall|k: int| 0 <= k < now.len() implies (#[trigger] now[k]) is Some by {
                if k < i {
                    assert(sizes@.subrange(0, i as int)[k] is Some);
                }
            }
        }
        i += 1;
    }
    proof {
        assert(sizes@.subrange(0, sizes.len() as int) =~= sizes@);
    }
    if overflow {
        Err(ProducerError::GenericError(String::from_str("artifact sizes exceed 64 bits")))
    } else {
        Ok(total)
    }
}

/// The record of one produced package: its type, the paths as returned, the
/// sum of their sizes and the digest of the first path.
pub fn assemble_artifact(
    package_type: PackageType,
    paths: Vec<String>,
    sizes: &Vec<Option<u64>>,
    checksum: String,
) -> (r: Result<BundledArtifact, ProducerError>)
    ensures
        match r {
            Ok(artifact) => {
                &&& recordable(paths@, sizes@)
                &&& artifact.package_type == package_type
                &&& artifact.paths == paths
                &&& artifact.size as nat == total_size(sizes@)
                &&& artifact.checksum == checksum
            },
            Err(e) => {
                &&& !recordable(paths@, sizes@)
                &&& paths.len() == 0 <==> e is NoOutputPaths
                &&& e matches ProducerError::NoOutputPaths(t) ==> t == package_type
                &&& (paths.len() > 0 && !(sizes.len() == paths.len() && all_present(sizes@))) <==> e is IoError
                &&& (paths.len() > 0 && sizes.len() == paths.len() && all_present(sizes@)) <==> e is GenericError
                &&& e matches ProducerError::IoError(text) ==> text@ == produced_defect(paths@, sizes@)
                &&& e matches ProducerError::GenericError(text) ==> text@ == produced_defect(
                    paths@,
                    sizes@,
                )
            },
        },
{
    match produced_size(package_type, &paths, sizes) {
        Ok(size) => Ok(BundledArtifact { package_type, paths, size, checksum }),
        Err(e) => Err(e),
    }
}

/// One bundling run: the package types in their order, and the artifacts
/// recorded so far.
#[derive(Debug)]
pub struct BundleRun {
    types: Vec<PackageType>,
    host: HostOs,
    artifacts: Vec<BundledArtifact>,
    failed: bool,
}

impl BundleRun {
    /// The package types of the run, in order.
    pub closed spec fn types(&self) -> Seq<PackageType> {
        self.types@
    }

    /// The host of the run.
    pub closed spec fn host(&self) -> HostOs {
        self.host
    }

    /// The artifacts recorded so far, in order.
    pub closed spec fn artifacts(&self) -> Seq<BundledArtifact> {
        self.artifacts@
    }

    /// Whether the run has failed.
    pub closed spec fn failed(&self) -> bool {
        self.failed
    }

    /// There is one artifact for each package type done so far, of that type
    /// and with at least one path, in the order of the types.
    pub open spec fn well_formed(&self) -> bool {
        &&& self.artifacts().len() <= self.types().len()
        &&& forall|i: int|
            0 <= i < self.artifacts().len() ==> (#[trigger] self.artifacts()[i]).package_type
                == self.types()[i] && self.artifacts()[i].paths.len() > 0
    }

    /// A run over the given package types on the given host.
    pub fn new(types: Vec<PackageType>, host: HostOs) -> (r: Self)
        ensures
            r.well_formed(),
            r.types() == types@,
            r.host() == host,
            r.artifacts().len() == 0,
            !r.failed(),
    {
        BundleRun { types, host, artifacts: Vec::new(), failed: false }
    }

    /// What is to be done next. The package types come one at a time in
    /// their order; one that the host has no producer for fails the run.
    pub fn next_step(&mut self) -> (r: BundleStep)
        requires
            old(self).well_formed(),
        ensures
            final(self).well_formed(),
            final(self).types() == old(self).types(),
            final(self).host() == old(self).host(),
            final(self).artifacts() == old(self).artifacts(),
            match r {
                BundleStep::Aborted => old(self).failed() && final(self).failed(),
                BundleStep::Finished => !old(self).failed() && !final(self).failed() && old(self).artifacts().len() == old(self).types().len(),
                BundleStep::Produce(t) => {
                    &&& !old(self).failed() && !final(self).failed()
                    &&& old(self).artifacts().len() < old(self).types().len()
                    &&& t == old(self).types()[old(self).artifacts().len() as int]
                    &&& supported_on(t, old(self).host())
                },
                BundleStep::Fail(e) => {
                    &&& !old(self).failed() && final(self).failed()
                    &&& old(self).artifacts().len() < old(self).types().len()
                    &&& !supported_on(
                        old(self).types()[old(self).artifacts().len() as int],
                        old(self).host(),
                    )
                    &&& e matches ProducerError::UnsupportedPackageType(t) && t == old(self).types()[old(self).artifacts().len() as int]
                },
            },
    {
        if self.failed {
            return BundleStep::Aborted;
        }
        if self.artifacts.len() >= self.types.len() {
            return BundleStep::Finished;
        }
        let t = self.types[self.artifacts.len()];
        if is_supported_on(t, self.host) {
            BundleStep::Produce(t)
        } else {
            self.failed = true;
            BundleStep::Fail(ProducerError::UnsupportedPackageType(t))
        }
    }

    /// No package type is being produced: the run has failed, or is over.
    pub open spec fn out_of_turn(&self) -> bool {
        self.failed() || self.artifacts().len() >= self.types().len()
    }

    /// Records what the producer of the next package type returned: its
    /// paths, the size of each as found on disk, and the digest of the first
    /// path. Where this cannot be recorded, or no package type is being
    /// produced, the run fails and keeps what it had.
    pub fn record_success(&mut self, paths: Vec<String>, sizes: &Vec<Option<u64>>, checksum: String) -> (r:
        Result<(), ProducerError>)
        requires
            old(self).well_formed(),
        ensures
            final(self).well_formed(),
            final(self).types() == old(self).types(),
            final(self).host() == old(self).host(),
            r is Ok <==> !old(self).out_of_turn() && recordable(paths@, sizes@),
            match r {
                Ok(_) => {
                    &&& !final(self).failed()
                    &&& final(self).artifacts().len() == old(self).artifacts().len() + 1
                    &&& final(self).artifacts().drop_last() == old(self).artifacts()
                    &&& final(self).artifacts().last().package_type == old(self).types()[old(self).artifacts().len() as int]
                    &&& final(self).artifacts().last().paths == paths
                    &&& final(self).artifacts().last().size as nat == total_size(sizes@)
                    &&& final(self).artifacts().last().checksum == checksum
                },
                Err(e) => {
                    &&& final(self).failed()
                    &&& final(self).artifacts() == old(self).artifacts()
                    &&& old(self).out_of_turn() ==> (e matches ProducerError::GenericError(text)
                        && text@ == "no package type is being produced"@)
                    &&& !old(self).out_of_turn() ==> {
                        &&& paths.len() == 0 <==> e is NoOutputPaths
                        &&& e matches ProducerError::NoOutputPaths(t) ==> t == old(self).types()[old(
                            self,
                        ).artifacts().len() as int]
                        &&& (paths.len() > 0 && !(sizes.len() == paths.len() && all_present(sizes@)))
                            <==> e is IoError
                        &&& (paths.len() > 0 && sizes.len() == paths.len() && all_present(sizes@))
                            <==> e is GenericError
                        &&& e matches ProducerError::IoError(text) ==> text@ == produced_defect(
                            paths@,
                            sizes@,
                        )
                        &&& e matches ProducerError::GenericError(text) ==> text@ == produced_defect(
                            paths@,
                            sizes@,
                        )
                    }
                },
            },
    {
        if self.failed || self.artifacts.len() >= self.types.len() {
            self.failed = true;
            return Err(
                ProducerError::GenericError(String::from_str("no package type is being produced")),
            );
        }
        let t = self.types[self.artifacts.len()];
        match assemble_artifact(t, paths, sizes, checksum) {
            Ok(artifact) => {
                let ghost before = self.artifacts@;
                self.artifacts.push(artifact);
                proof {
                    assert(self.artifacts@.drop_last() =~= before);
                }
                Ok(())
            },
            Err(e) => {
                self.failed = true;
                Err(e)
            },
        }
    }

    /// Records that the producer of the next package type failed: the run
    /// is over, and no later package type is attempted.
    pub fn record_failure(&mut self)
        requires
            old(self).well_formed(),
        ensures
            final(self).well_formed(),
            final(self).failed(),
            final(self).types() == old(self).types(),
            final(self).host() == old(self).host(),
            final(self).artifacts() == old(self).artifacts(),
    {
        self.failed = true;
    }

    /// The artifacts of a run that produced every package type: one for
    /// each, in the order of the types. A run that failed or is not over
    /// gives nothing, never a part of the list.
    pub fn finish(self) -> (r: Option<Vec<BundledArtifact>>)
        requires
            self.well_formed(),
        ensures
            match r {
                Some(artifacts) => {
                    &&& !self.failed()
                    &&& artifacts@ == self.artifacts()
                    &&& artifacts.len() == self.types().len()
                    &&& forall|i: int|
                        0 <= i < artifacts.len() ==> (#[trigger] artifacts[i]).package_type
                            == self.types()[i] && artifacts[i].paths.len() > 0
                },
                None => self.failed() || self.artifacts().len() < self.types().len(),
            },
    {
        if self.failed || self.artifacts.len() < self.types.len() {
            None
        } else {
            Some(self.artifacts)
        }
    }
}

/// Coordinates the bundling of one set of settings.
#[derive(Debug)]
pub struct Bundler {
    settings: Settings,
}

impl Bundler {
    /// The settings of this bundler.
    pub closed spec fn config(&self) -> Settings {
        self.settings
    }

    /// A bundler for the given settings.
    pub fn new(settings: Settings) -> (r: Self)
        ensures
            r.config() == settings,
    {
        Bundler { settings }
    }

    /// The settings of this bundler.
    pub fn settings(&self) -> (r: &Settings)
        ensures
            *r == self.config(),
    {
        &self.settings
    }

    /// A run over the package types that the settings ask for, or over the
    /// defaults of the host where they ask for none.
    pub fn bundle(&self, host: HostOs, has_makensis: bool) -> (r: BundleRun)
        ensures
            r.well_formed(),
            r.types() == planned_types(self.config().requested_types(), host, has_makensis),
            r.host() == host,
            r.artifacts().len() == 0,
            !r.failed(),
    {
        let types = determine_platform_types(self.settings.package_types(), host, has_makensis);
        BundleRun::new(types, host)
    }

    /// A run over the given package types, in the order given.
    pub fn bundle_types(&self, types: &Vec<PackageType>, host: HostOs) -> (r: BundleRun)
        ensures
            r.well_formed(),
            r.types() == types@,
            r.host() == host,
            r.artifacts().len() == 0,
            !r.failed(),
    {
        let copy = determine_platform_types(Some(types), host, false);
        BundleRun::new(copy, host)
    }
}

/// On Linux, with no package type asked for and no Windows compiler at hand,
/// exactly the Debian package, the RPM package and the AppImage are built,
/// in this order, and the host has a producer for each.
pub proof fn lemma_linux_defaults()
    ensures
        planned_types(None, HostOs::Linux, false) == seq![
            PackageType::Deb,
            PackageType::Rpm,
            PackageType::AppImage,
        ],
        forall|i: int|
            0 <= i < 3 ==> supported_on(
                #[trigger] planned_types(None, HostOs::Linux, false)[i],
                HostOs::Linux,
            ),
{
}

/// Every default package type has a producer on its host.
pub proof fn lemma_defaults_are_supported(host: HostOs, has_makensis: bool, i: int)
    requires
        0 <= i < default_types(host, has_makensis).len(),
    ensures
        supported_on(default_types(host, has_makensis)[i], host),
{
}

} // verus!
