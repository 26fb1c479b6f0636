//! The file exporter: where the exposition text goes, and producing it.
use vstd::prelude::*;

use crate::metrics::{all_named, apply_poll, JailReading, Metrics, MetricsError};

verus! {

/// Where the metrics are written: a file, replaced atomically, or stdout.
#[derive(Clone, Debug)]
pub enum FileExporterOutput {
    File(String),
    Stdout,
}

impl FileExporterOutput {
    /// The text that names the destination.
    pub open spec fn text(&self) -> Seq<char> {
        match self {
            FileExporterOutput::File(path) => path@,
            FileExporterOutput::Stdout => seq!['-'],
        }
    }

    /// The path of a file destination, `-` for stdout.
    pub fn to_string(&self) -> (r: String)
        ensures
            r@ == self.text(),
    {
        match self {
            FileExporterOutput::File(path) => path.clone(),
            FileExporterOutput::Stdout => {
                let r = "-".to_owned();
                proof {
                    reveal_strlit("-");
                }
                r
            },
        }
    }
}

/// Why an export failed.
#[derive(Clone, Copy, Debug, PartialEq, Eq, Structural)]
pub enum ExporterError {
    /// Polling the metrics failed.
    Metrics(MetricsError),
}

/// Exports the metrics to one destination.
pub struct FileExporter {
    dest: FileExporterOutput,
}

impl FileExporter {
    /// The destination.
    pub closed spec fn output(&self) -> FileExporterOutput {
        self.dest
    }

    /// An exporter to `output`.
    pub fn new(output: FileExporterOutput) -> (r: Self)
        ensures
            r.output() == output,
    {
        FileExporter { dest: output }
    }

    /// The destination.
    pub fn dest(&self) -> (r: &FileExporterOutput)
        ensures
            *r == self.output(),
    {
        &self.dest
    }

    /// Polls the jails and produces the bytes to write to the destination.
    pub fn export(&self, metrics: &mut Metrics, jails: &Vec<JailReading>) -> (r: Result<Vec<u8>, ExporterError>)
        requires
            old(metrics).wf(),
            jails@.len() <= i64::MAX,
        ensures
            final(metrics).wf(),
            r is Ok <==> all_named(jails@),
            r is Err ==> r->Err_0 == ExporterError::Metrics(MetricsError::UnnamedJail),
            all_named(jails@) ==> final(metrics).model() == apply_poll(old(metrics).model(), jails@),
            !all_named(jails@) ==> final(metrics).model() == old(metrics).model(),
    {
        match metrics.export(jails) {
            Ok(bytes) => Ok(bytes),
            Err(e) => Err(ExporterError::Metrics(e)),
        }
    }
}

} // verus!
