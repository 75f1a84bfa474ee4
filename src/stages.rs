use vstd::prelude::*;

verus! {

/// The phases of an installation that can be selected, in no particular order.
#[derive(Clone, Copy, Debug, PartialEq, Eq, Structural)]
pub enum Stage {
    Bios,
    Boot,
    Bootloader,
    Filesystem,
    System,
    Network,
    Drivers,
    Initramfs,
    Packages,
    Kernel,
    Compilation,
    Deno,
    Database,
    Xorg,
    Services,
    Retro,
    Locale,
    Optimization,
}

/// The display label of each phase.
pub open spec fn stage_label(s: Stage) -> Seq<char> {
    match s {
        Stage::Bios => "BIOS Initialization"@,
        Stage::Boot => "Boot Sequence"@,
        Stage::Bootloader => "Bootloader Installation"@,
        Stage::Filesystem => "Filesystem Setup"@,
        Stage::System => "Base System Installation"@,
        Stage::Network => "Network Configuration"@,
        Stage::Drivers => "Driver Installation"@,
        Stage::Initramfs => "Initramfs Generation"@,
        Stage::Packages => "Package Installation"@,
        Stage::Kernel => "Kernel Compilation"@,
        Stage::Compilation => "System Compilation"@,
        Stage::Deno => "Deno Runtime Compilation"@,
        Stage::Database => "Database Setup"@,
        Stage::Xorg => "X.Org Configuration"@,
        Stage::Services => "System Services"@,
        Stage::Retro => "Retro Software Installation"@,
        Stage::Locale => "Locale Configuration"@,
        Stage::Optimization => "System Optimization"@,
    }
}

/// What every installation stage offers: a label, shown on its banners, and
/// the phase it stands for.
pub trait InstallationStage {
    spec fn phase(&self) -> Stage;

    fn name(&self) -> (r: &'static str)
        ensures
            r@ == stage_label(self.phase()),
    ;

    fn stage(&self) -> (r: Stage)
        ensures
            r == self.phase(),
    ;
}

impl Stage {
    /// The label of this phase.
    pub fn label(&self) -> (r: &'static str)
        ensures
            r@ == stage_label(*self),
    {
        match self {
            Stage::Bios => "BIOS Initialization",
            Stage::Boot => "Boot Sequence",
            Stage::Bootloader => "Bootloader Installation",
            Stage::Filesystem => "Filesystem Setup",
            Stage::System => "Base System Installation",
            Stage::Network => "Network Configuration",
            Stage::Drivers => "Driver Installation",
            Stage::Initramfs => "Initramfs Generation",
            Stage::Packages => "Package Installation",
            Stage::Kernel => "Kernel Compilation",
            Stage::Compilation => "System Compilation",
            Stage::Deno => "Deno Runtime Compilation",
            Stage::Database => "Database Setup",
            Stage::Xorg => "X.Org Configuration",
            Stage::Services => "System Services",
            Stage::Retro => "Retro Software Installation",
            Stage::Locale => "Locale Configuration",
            Stage::Optimization => "System Optimization",
        }
    }
}

/// A stage that only announces itself and waits: its work is cosmetic.
#[derive(Clone, Copy, Debug, PartialEq, Eq, Structural)]
pub struct BannerStage {
    pub stage: Stage,
}

impl InstallationStage for BannerStage {
    open spec fn phase(&self) -> Stage {
        self.stage
    }

    fn name(&self) -> (r: &'static str) {
        self.stage.label()
    }

    fn stage(&self) -> (r: Stage) {
        self.stage
    }
}

/// The runtime-build stage: the one whose build may fail and be retried.
/// Its log catalog is supplied when it runs.
#[derive(Clone, Copy, Debug, PartialEq, Eq, Structural)]
pub struct DenoStage {}

impl DenoStage {
    pub fn new() -> (r: DenoStage)
        ensures
            r == (DenoStage {}),
    {
        DenoStage {}
    }
}

impl InstallationStage for DenoStage {
    open spec fn phase(&self) -> Stage {
        Stage::Deno
    }

    fn name(&self) -> (r: &'static str) {
        "Deno Runtime Compilation"
    }

    fn stage(&self) -> (r: Stage) {
        Stage::Deno
    }
}

/// A constructed stage, ready to run.
#[derive(Clone, Copy, Debug, PartialEq, Eq, Structural)]
pub enum SelectedStage {
    Banner(BannerStage),
    Deno(DenoStage),
}

impl InstallationStage for SelectedStage {
    open spec fn phase(&self) -> Stage {
        match self {
            SelectedStage::Banner(b) => b.stage,
            SelectedStage::Deno(_) => Stage::Deno,
        }
    }

    fn name(&self) -> (r: &'static str) {
        match self {
            SelectedStage::Banner(b) => b.name(),
            SelectedStage::Deno(d) => d.name(),
        }
    }

    fn stage(&self) -> (r: Stage) {
        match self {
            SelectedStage::Banner(b) => b.stage,
            SelectedStage::Deno(_) => Stage::Deno,
        }
    }
}

/// The stage constructed for a phase.
pub open spec fn selection_of(s: Stage) -> SelectedStage {
    if s == Stage::Deno {
        SelectedStage::Deno(DenoStage {})
    } else {
        SelectedStage::Banner(BannerStage { stage: s })
    }
}

/// Constructs the stages for the selected phases, one for each, in order.
pub fn selected_stages(stages: &[Stage]) -> (r: Vec<SelectedStage>)
    ensures
        r@ == stages@.map_values(|s: Stage| selection_of(s)),
{
    let mut result: Vec<SelectedStage> = Vec::new();
    let mut i: usize = 0;
    while i < stages.len()
        invariant
            i <= stages@.len(),
            result@ == stages@.take(i as int).map_values(|s: Stage| selection_of(s)),
        decreases stages@.len() - i,
    {
        let s = stages[i];
        let stage_impl = match s {
            Stage::Deno => SelectedStage::Deno(DenoStage::new()),
            _ => SelectedStage::Banner(BannerStage { stage: s }),
        };
        result.push(stage_impl);
        assert(stages@.take(i as int + 1) =~= stages@.take(i as int).push(s));
        i = i + 1;
    }
    assert(stages@.take(stages@.len() as int) =~= stages@);
    result
}

} // verus!
