use vstd::prelude::*;

verus! {

/// Command-line options of the monitor.
#[derive(Debug, Clone)]
pub struct Cli {
    /// Path of the settings file; `settings.json` in the program's directory when absent.
    pub config: Option<String>,
    /// Directory of the data file; the program's directory when absent.
    pub data_dir: Option<String>,
    /// Log at trace level rather than info level.
    pub verbose: bool,
}

impl Default for Cli {
    fn default() -> (c: Cli)
        ensures
            c.config is None,
            c.data_dir is None,
            !c.verbose,
    {
        Cli { config: None, data_dir: None, verbose: false }
    }
}

/// The log level: `trace` when verbose, else `info`.
pub open spec fn log_level(verbose: bool) -> Seq<char> {
    if verbose {
        "trace"@
    } else {
        "info"@
    }
}

/// The logging filter: the same level for the web server and for the monitor.
pub open spec fn log_filter_text(verbose: bool) -> Seq<char> {
    "actix_web="@ + log_level(verbose) + ","@ + "node_monitor="@ + log_level(verbose)
}

impl Cli {
    /// The logging filter these options ask for.
    pub fn log_filter(&self) -> (f: String)
        ensures
            f@ == log_filter_text(self.verbose),
    {
        let level = if self.verbose {
            "trace"
        } else {
            "info"
        };
        let mut f = "actix_web=".to_owned();
        f.append(level);
        f.append(",");
        f.append("node_monitor=");
        f.append(level);
        f
    }
}

/// The TCP port for a configured port number, if it is one.
pub fn health_port(port: u64) -> (p: Option<u16>)
    ensures
        p == (if port <= u16::MAX { Some(port as u16) } else { None::<u16> }),
{
    if port <= 65535 {
        Some(port as u16)
    } else {
        None
    }
}

} // verus!
