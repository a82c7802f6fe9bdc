use vstd::prelude::*;

use crate::paths::expand_tilde;
use crate::runtime::{db_source, expansion_of, opt_view, Rtd};
use crate::schema::{holds_str, Conf};

verus! {

/// How far the assembly of a runtime snapshot has come.
#[derive(Clone, Copy, PartialEq, Eq, Structural)]
pub enum Stage {
    /// the configuration file's directory is to be made sure of
    ConfDir,
    /// it is to be found out whether the configuration file exists
    ConfCheck,
    /// a default configuration file is to be written
    ConfCreate,
    /// the configuration file is to be read
    ConfRead,
    /// the history storage's directory is to be made sure of
    DbDir,
    /// the snapshot is complete
    Done,
}

/// Position of a stage in the order that an assembly goes through them.
pub open spec fn rank(s: Stage) -> int {
    match s {
        Stage::ConfDir => 0,
        Stage::ConfCheck => 1,
        Stage::ConfCreate => 2,
        Stage::ConfRead => 3,
        Stage::DbDir => 4,
        Stage::Done => 5,
    }
}

/// The work that the caller does next.
pub enum Step {
    /// make sure that the directory holding this file exists
    EnsureDir(String),
    /// tell whether a file exists at this path
    CheckFile(String),
    /// write the default configuration to this path
    WriteDefault(String),
    /// read and parse the configuration at this path
    ReadConf(String),
    /// nothing is left to do
    Finished,
}

/// A step as its kind and the characters of its path.
pub enum StepView {
    EnsureDir(Seq<char>),
    CheckFile(Seq<char>),
    WriteDefault(Seq<char>),
    ReadConf(Seq<char>),
    Finished,
}

impl View for Step {
    type V = StepView;

    open spec fn view(&self) -> StepView {
        match self {
            Step::EnsureDir(p) => StepView::EnsureDir(p@),
            Step::CheckFile(p) => StepView::CheckFile(p@),
            Step::WriteDefault(p) => StepView::WriteDefault(p@),
            Step::ReadConf(p) => StepView::ReadConf(p@),
            Step::Finished => StepView::Finished,
        }
    }
}

/// What came of the step that the caller did.
pub enum Outcome {
    /// the directory exists now
    DirReady,
    /// whether the file exists
    FileExists(bool),
    /// the default configuration was written
    Written,
    /// the configuration that was read
    Read(Conf),
}

/// `a` is `b` with the IRC client's version set to `version`.
pub open spec fn stamped(a: Conf, b: Conf, version: Seq<char>) -> bool {
    &&& a.network == b.network
    &&& a.features == b.features
    &&& a.params == b.params
    &&& a.database == b.database
    &&& a.client.nickname == b.client.nickname
    &&& a.client.nick_password == b.client.nick_password
    &&& a.client.alt_nicks == b.client.alt_nicks
    &&& a.client.username == b.client.username
    &&& a.client.realname == b.client.realname
    &&& a.client.server == b.client.server
    &&& a.client.port == b.client.port
    &&& a.client.password == b.client.password
    &&& a.client.use_ssl == b.client.use_ssl
    &&& a.client.channels == b.client.channels
    &&& a.client.user_info == b.client.user_info
    &&& holds_str(a.client.version, version)
}

/// `r` is `prev` once the configuration `c` has been read: `c` stamped with
/// `version`, the history flag taken from it, and the storage path resolved
/// by precedence and home-expanded.
pub open spec fn loaded(r: Rtd, prev: Rtd, c: Conf, version: Seq<char>) -> bool {
    &&& r.paths.conf == prev.paths.conf
    &&& stamped(r.conf, c, version)
    &&& r.history == c.features.history
    &&& match db_source(
        c.features.history,
        c.database.db_type,
        opt_view(prev.paths.db),
        opt_view(c.database.path),
    ) {
        Some(src) => r.paths.db matches Some(d) && expansion_of(d@, src),
        None => r.paths.db is None,
    }
}

/// The assembly of a runtime snapshot, one step of outside work at a time.
pub struct Assembly {
    pub rtd: Rtd,
    pub stage: Stage,
    pub version: String,
}

impl Assembly {
    /// The step that the stage asks for.
    pub open spec fn step_view(self) -> StepView {
        match self.stage {
            Stage::ConfDir => StepView::EnsureDir(self.rtd.paths.conf@),
            Stage::ConfCheck => StepView::CheckFile(self.rtd.paths.conf@),
            Stage::ConfCreate => StepView::WriteDefault(self.rtd.paths.conf@),
            Stage::ConfRead => StepView::ReadConf(self.rtd.paths.conf@),
            Stage::DbDir => match self.rtd.paths.db {
                Some(d) => StepView::EnsureDir(d@),
                None => StepView::Finished,
            },
            Stage::Done => StepView::Finished,
        }
    }

    /// `self` follows `prev` after `outcome`. An outcome that does not answer
    /// the step asked for changes nothing.
    pub open spec fn follows(self, prev: Assembly, outcome: Outcome) -> bool {
        &&& self.version == prev.version
        &&& match (prev.stage, outcome) {
            (Stage::ConfDir, Outcome::DirReady) => self.stage == Stage::ConfCheck && self.rtd
                == prev.rtd,
            (Stage::ConfCheck, Outcome::FileExists(true)) => self.stage == Stage::ConfRead
                && self.rtd == prev.rtd,
            (Stage::ConfCheck, Outcome::FileExists(false)) => self.stage == Stage::ConfCreate
                && self.rtd == prev.rtd,
            (Stage::ConfCreate, Outcome::Written) => self.stage == Stage::ConfRead && self.rtd
                == prev.rtd,
            (Stage::ConfRead, Outcome::Read(c)) => self.stage == Stage::DbDir && loaded(
                self.rtd,
                prev.rtd,
                c,
                prev.version@,
            ),
            (Stage::DbDir, Outcome::DirReady) => self.stage == Stage::Done && self.rtd
                == prev.rtd,
            _ => self.stage == prev.stage && self.rtd == prev.rtd,
        }
    }

    /// Starts assembling from `rtd`, whose paths are set; `version` is the
    /// running program's version.
    pub fn new(rtd: Rtd, version: &str) -> (r: Self)
        ensures
            r.rtd == rtd,
            r.stage == Stage::ConfDir,
            r.version@ == version@,
    {
        Assembly { rtd, stage: Stage::ConfDir, version: String::from_str(version) }
    }

    /// The step to do next.
    pub fn step(&self) -> (r: Step)
        ensures
            r@ == self.step_view(),
    {
        match self.stage {
            Stage::ConfDir => Step::EnsureDir(self.rtd.paths.conf.clone()),
            Stage::ConfCheck => Step::CheckFile(self.rtd.paths.conf.clone()),
            Stage::ConfCreate => Step::WriteDefault(self.rtd.paths.conf.clone()),
            Stage::ConfRead => Step::ReadConf(self.rtd.paths.conf.clone()),
            Stage::DbDir => match &self.rtd.paths.db {
                Some(d) => Step::EnsureDir(d.clone()),
                None => Step::Finished,
            },
            Stage::Done => Step::Finished,
        }
    }

    /// Takes in what came of the last step and returns the next one.
    pub fn advance(&mut self, outcome: Outcome) -> (r: Step)
        ensures
            final(self).follows(*old(self), outcome),
            r@ == final(self).step_view(),
    {
        match (self.stage, outcome) {
            (Stage::ConfDir, Outcome::DirReady) => {
                self.stage = Stage::ConfCheck;
            },
            (Stage::ConfCheck, Outcome::FileExists(exists)) => {
                self.stage = if exists {
                    Stage::ConfRead
                } else {
                    Stage::ConfCreate
                };
            },
            (Stage::ConfCreate, Outcome::Written) => {
                self.stage = Stage::ConfRead;
            },
            (Stage::ConfRead, Outcome::Read(c)) => {
                self.rtd.conf = c;
                self.rtd.history = self.rtd.conf.features.history;
                self.rtd.paths.db = match self.rtd.get_db_info() {
                    Some(p) => Some(expand_tilde(p.as_str())),
                    None => None,
                };
                self.rtd.conf.client.version = Some(self.version.clone());
                self.stage = Stage::DbDir;
            },
            (Stage::DbDir, Outcome::DirReady) => {
                self.stage = Stage::Done;
            },
            _ => {},
        }
        self.step()
    }

    /// The snapshot, once assembled.
    pub fn into_rtd(self) -> (r: Rtd)
        ensures
            r == self.rtd,
    {
        self.rtd
    }
}

/// `outcome` is an answer to the step that `stage` asks for.
pub open spec fn answers(stage: Stage, outcome: Outcome) -> bool {
    match (stage, outcome) {
        (Stage::ConfDir, Outcome::DirReady) => true,
        (Stage::ConfCheck, Outcome::FileExists(_)) => true,
        (Stage::ConfCreate, Outcome::Written) => true,
        (Stage::ConfRead, Outcome::Read(_)) => true,
        (Stage::DbDir, Outcome::DirReady) => true,
        _ => false,
    }
}

/// An assembly never goes back to an earlier stage: each outcome either
/// leaves it where it was or moves it forward, and it stays where it was
/// exactly when the outcome does not answer the step asked for.
pub proof fn lemma_assembly_moves_forward(next: Assembly, prev: Assembly, outcome: Outcome)
    requires
        next.follows(prev, outcome),
    ensures
        rank(next.stage) >= rank(prev.stage),
        next.stage == prev.stage <==> !answers(prev.stage, outcome),
{
}

} // verus!
