//! The read-only configuration snapshot that the report is built from.

use vstd::prelude::*;

verus! {

/// A snapshot of the effective run configuration. The report builder only
/// reads it; no field carries behavior.
pub struct Configuration {
    /// number of concurrent requests
    pub threads: usize,
    /// path of the wordlist in use
    pub wordlist: String,
    /// status codes on the allow-list
    pub status_codes: Vec<u16>,
    /// status codes on the deny-list
    pub filter_status: Vec<u16>,
    /// status codes forwarded to the replay proxy
    pub replay_codes: Vec<u16>,
    /// request timeout in seconds
    pub timeout: u64,
    /// user-agent header sent with each request
    pub user_agent: String,
    /// path of the configuration file, empty when none was read
    pub config: String,
    /// proxy URL, empty when none is set
    pub proxy: String,
    /// replay proxy URL, empty when none is set
    pub replay_proxy: String,
    /// header name/value pairs sent with each request
    pub headers: Vec<(String, String)>,
    /// query parameter key/value pairs
    pub queries: Vec<(String, String)>,
    /// response-size filters, in bytes
    pub filter_size: Vec<u64>,
    /// similarity filters
    pub filter_similar: Vec<String>,
    /// word-count filters
    pub filter_word_count: Vec<usize>,
    /// line-count filters
    pub filter_line_count: Vec<usize>,
    /// regular-expression filters
    pub filter_regex: Vec<String>,
    /// whether links are extracted from response bodies
    pub extract_links: bool,
    /// whether results are emitted as JSON
    pub json: bool,
    /// path of the output file, empty when none is set
    pub output: String,
    /// path of the debug log, empty when none is set
    pub debug_log: String,
    /// extensions appended to each word
    pub extensions: Vec<String>,
    /// whether TLS certificate verification is disabled
    pub insecure: bool,
    /// whether redirects are followed
    pub redirects: bool,
    /// whether wildcard filtering is disabled
    pub dont_filter: bool,
    /// output verbosity level
    pub verbosity: u8,
    /// whether a slash is appended to each word
    pub add_slash: bool,
    /// whether recursion is disabled
    pub no_recursion: bool,
    /// recursion depth, zero meaning unbounded
    pub depth: usize,
    /// upper bound on concurrent scans, zero meaning none
    pub scan_limit: usize,
    /// time limit for the whole scan, empty when none is set
    pub time_limit: String,
}

impl Default for Configuration {
    /// The default snapshot: a common allow-list, fifty threads, a seven
    /// second timeout, and every optional value absent.
    fn default() -> (d: Self)
        ensures
            d.threads == 50,
            d.wordlist@ == "/usr/share/seclists/Discovery/Web-Content/raft-medium-directories.txt"@,
            d.status_codes@ == seq![200u16, 204u16, 301u16, 302u16, 307u16, 308u16, 401u16, 403u16, 405u16],
            d.filter_status@ == Seq::<u16>::empty(),
            d.replay_codes@ == Seq::<u16>::empty(),
            d.timeout == 7,
            d.user_agent@ == "feroxbuster/2.3.1"@,
            d.config@ == Seq::<char>::empty(),
            d.proxy@ == Seq::<char>::empty(),
            d.replay_proxy@ == Seq::<char>::empty(),
            d.headers@ == Seq::<(String, String)>::empty(),
            d.queries@ == Seq::<(String, String)>::empty(),
            d.filter_size@ == Seq::<u64>::empty(),
            d.filter_similar@ == Seq::<String>::empty(),
            d.filter_word_count@ == Seq::<usize>::empty(),
            d.filter_line_count@ == Seq::<usize>::empty(),
            d.filter_regex@ == Seq::<String>::empty(),
            !d.extract_links,
            !d.json,
            d.output@ == Seq::<char>::empty(),
            d.debug_log@ == Seq::<char>::empty(),
            d.extensions@ == Seq::<String>::empty(),
            !d.insecure,
            !d.redirects,
            !d.dont_filter,
            d.verbosity == 0,
            !d.add_slash,
            !d.no_recursion,
            d.depth == 4,
            d.scan_limit == 0,
            d.time_limit@ == Seq::<char>::empty(),
    {
        let status_codes: Vec<u16> = vec![200, 204, 301, 302, 307, 308, 401, 403, 405];
        proof {
            assert(status_codes@ =~= seq![
                200u16,
                204u16,
                301u16,
                302u16,
                307u16,
                308u16,
                401u16,
                403u16,
                405u16,
            ]);
        }
        Configuration {
            threads: 50,
            wordlist: String::from_str(
                "/usr/share/seclists/Discovery/Web-Content/raft-medium-directories.txt",
            ),
            status_codes,
            filter_status: Vec::new(),
            replay_codes: Vec::new(),
            timeout: 7,
            user_agent: String::from_str("feroxbuster/2.3.1"),
            config: String::new(),
            proxy: String::new(),
            replay_proxy: String::new(),
            headers: Vec::new(),
            queries: Vec::new(),
            filter_size: Vec::new(),
            filter_similar: Vec::new(),
            filter_word_count: Vec::new(),
            filter_line_count: Vec::new(),
            filter_regex: Vec::new(),
            extract_links: false,
            json: false,
            output: String::new(),
            debug_log: String::new(),
            extensions: Vec::new(),
            insecure: false,
            redirects: false,
            dont_filter: false,
            verbosity: 0,
            add_slash: false,
            no_recursion: false,
            depth: 4,
            scan_limit: 0,
            time_limit: String::new(),
        }
    }
}

} // verus!
