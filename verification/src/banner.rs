//! The startup report: an ordered collection of entries built from a
//! configuration snapshot, rendered line by line between a fixed header and
//! footer, with an update notice when a newer release is known.

use vstd::prelude::*;
use crate::checker::{
    body_view, diag_of_response, status_of_response, CheckFailure, TransportFailure, UpdateStatus,
};
use crate::config::Configuration;
use crate::entry::{entry_is, line_of, resolved_icon, BannerEntry};
use crate::sink::{Sink, WriteFailure};
use crate::style::{colorize_status, colorized_as, emoji_or_fallback, style_bright_yellow, style_yellow, styled_as};
use crate::text::{bool_str, bool_string, bracket_join, bracketed, dec_str, dec_string, lemma_str_views_push, str_views};
use crate::checker::decide_update_status;

verus! {

/// The version of the running tool, as rendered in the report header.
pub open spec fn tool_version() -> Seq<char> {
    "2.3.1"@
}

/// The release page named by the update notice.
pub open spec fn release_url() -> Seq<char> {
    "https://github.com/epi052/feroxbuster/releases/latest"@
}

/// The lines behind a sequence of entries, in order.
pub open spec fn lines_of(es: Seq<BannerEntry>) -> Seq<Seq<char>> {
    es.map_values(|e: BannerEntry| line_of(e))
}

pub broadcast proof fn lemma_lines_of_push(es: Seq<BannerEntry>, e: BannerEntry)
    ensures
        #[trigger] lines_of(es.push(e)) == lines_of(es).push(line_of(e)),
{
    assert(lines_of(es.push(e)) =~= lines_of(es).push(line_of(e)));
}

pub broadcast proof fn lemma_lines_of_add(a: Seq<BannerEntry>, b: Seq<BannerEntry>)
    ensures
        #[trigger] lines_of(a + b) == lines_of(a) + lines_of(b),
{
    assert(lines_of(a + b) =~= lines_of(a) + lines_of(b));
}

/// The written form of a sequence of lines: each line followed by a newline.
pub open spec fn joined(lines: Seq<Seq<char>>) -> Seq<char>
    decreases lines.len(),
{
    if lines.len() == 0 {
        Seq::empty()
    } else {
        joined(lines.drop_last()) + lines.last() + "\n"@
    }
}

/// `out` renders `codes` as a bracketed, comma-joined list, each code
/// colorized by convention where the terminal takes colors.
pub open spec fn code_list_as(out: Seq<char>, codes: Seq<u16>) -> bool {
    exists|parts: Seq<Seq<char>>|
        {
            &&& parts.len() == codes.len()
            &&& (forall|i: int| 0 <= i < codes.len() ==> colorized_as(#[trigger] parts[i], codes[i]))
            &&& out == bracketed(parts)
        }
}

/// The header-icon column resolved for the current terminal: the glyph or its
/// fixed two-space fallback.
pub open spec fn nerd_icon_ok(icon: Seq<char>) -> bool {
    icon == "🤓"@ || icon == "  "@
}

/// The footer text around the two possibly-styled fragments.
pub open spec fn footer_text(enter: Seq<char>, menu: Seq<char>) -> Seq<char> {
    "───────────────────────────┴──────────────────────\n 🏁  Press ["@ + enter
        + "] to use the "@ + menu + "™\n──────────────────────────────────────────────────"@
}

/// `f` is the footer, its two highlighted fragments each either plain or
/// wrapped in their ANSI escapes.
pub open spec fn footer_ok(f: Seq<char>) -> bool {
    exists|enter: Seq<char>, menu: Seq<char>|
        {
            &&& styled_as(enter, "\u{1b}[33m"@, "ENTER"@)
            &&& styled_as(menu, "\u{1b}[38;5;11m"@, "Scan Cancel Menu"@)
            &&& f == footer_text(enter, menu)
        }
}

/// The ladder of verbosity icons, indexed by level.
pub open spec fn volume_icon(level: u8) -> Seq<char> {
    if level == 1 {
        "🔈"@
    } else if level == 2 {
        "🔉"@
    } else if level == 3 {
        "🔊"@
    } else {
        "📢"@
    }
}

/// The report: every entry the configuration gives rise to, the resolved
/// framing text, the running version, and the last known update status.
pub struct Banner {
    /// one entry per live target
    pub targets: Vec<BannerEntry>,
    /// the status-code allow-list
    pub status_codes: BannerEntry,
    /// the status-code deny-list
    pub filter_status: BannerEntry,
    /// the thread count
    pub threads: BannerEntry,
    /// the wordlist path
    pub wordlist: BannerEntry,
    /// the request timeout
    pub timeout: BannerEntry,
    /// the user-agent
    pub user_agent: BannerEntry,
    /// the configuration file path
    pub config: BannerEntry,
    /// the proxy URL
    pub proxy: BannerEntry,
    /// the replay proxy URL
    pub replay_proxy: BannerEntry,
    /// the replay status-code list
    pub replay_codes: BannerEntry,
    /// one entry per request header
    pub headers: Vec<BannerEntry>,
    /// one entry per size filter
    pub filter_size: Vec<BannerEntry>,
    /// one entry per similarity filter
    pub filter_similar: Vec<BannerEntry>,
    /// one entry per word-count filter
    pub filter_word_count: Vec<BannerEntry>,
    /// one entry per line-count filter
    pub filter_line_count: Vec<BannerEntry>,
    /// one entry per regex filter
    pub filter_regex: Vec<BannerEntry>,
    /// the link-extraction flag
    pub extract_links: BannerEntry,
    /// the JSON-output flag
    pub json: BannerEntry,
    /// the output file path
    pub output: BannerEntry,
    /// the debug log path
    pub debug_log: BannerEntry,
    /// the extensions list
    pub extensions: BannerEntry,
    /// the insecure flag
    pub insecure: BannerEntry,
    /// the follow-redirects flag
    pub redirects: BannerEntry,
    /// the wildcard-filtering flag
    pub dont_filter: BannerEntry,
    /// one entry per query parameter
    pub queries: Vec<BannerEntry>,
    /// the verbosity level
    pub verbosity: BannerEntry,
    /// the add-slash flag
    pub add_slash: BannerEntry,
    /// the recursion entry: depth, or the disabled notice
    pub no_recursion: BannerEntry,
    /// the concurrent-scan limit
    pub scan_limit: BannerEntry,
    /// the scan time limit
    pub time_limit: BannerEntry,
    /// the new-version notice, shown only when out of date
    pub update_notice: BannerEntry,
    /// the resolved header icon
    pub header_icon: String,
    /// the resolved footer text
    pub footer: String,
    /// the running version
    pub version: String,
    /// the last known update status
    pub update_status: UpdateStatus,
}

/// The value of a header entry.
pub open spec fn header_value(h: (String, String)) -> Seq<char> {
    h.0@ + ": "@ + h.1@
}

/// The value of a query-parameter entry.
pub open spec fn query_value(q: (String, String)) -> Seq<char> {
    q.0@ + "="@ + q.1@
}

impl Banner {
    /// The banner's entries were built from this target list and snapshot:
    /// every entry carries the label its field owns and the value the
    /// snapshot determines.
    pub open spec fn built_from(self, tgts: Seq<Seq<char>>, config: Configuration) -> bool {
        &&& self.targets@.len() == tgts.len()
        &&& (forall|i: int|
            0 <= i < tgts.len() ==> entry_is(
                #[trigger] self.targets@[i],
                "🎯"@,
                "Target Url"@,
                tgts[i],
            ))
        &&& resolved_icon(self.status_codes.icon@, "👌"@)
        &&& self.status_codes.title@ == "Status Codes"@
        &&& code_list_as(self.status_codes.value@, config.status_codes@)
        &&& resolved_icon(self.filter_status.icon@, "🗑"@)
        &&& self.filter_status.title@ == "Status Code Filters"@
        &&& code_list_as(self.filter_status.value@, config.filter_status@)
        &&& resolved_icon(self.replay_codes.icon@, "📼"@)
        &&& self.replay_codes.title@ == "Replay Proxy Codes"@
        &&& code_list_as(self.replay_codes.value@, config.replay_codes@)
        &&& entry_is(self.threads, "🚀"@, "Threads"@, dec_str(config.threads as nat))
        &&& entry_is(self.wordlist, "📖"@, "Wordlist"@, config.wordlist@)
        &&& entry_is(self.timeout, "💥"@, "Timeout (secs)"@, dec_str(config.timeout as nat))
        &&& entry_is(self.user_agent, "🦡"@, "User-Agent"@, config.user_agent@)
        &&& entry_is(self.config, "💉"@, "Config File"@, config.config@)
        &&& entry_is(self.proxy, "💎"@, "Proxy"@, config.proxy@)
        &&& entry_is(self.replay_proxy, "🎥"@, "Replay Proxy"@, config.replay_proxy@)
        &&& self.headers@.len() == config.headers@.len()
        &&& (forall|i: int|
            0 <= i < config.headers@.len() ==> entry_is(
                #[trigger] self.headers@[i],
                "🤯"@,
                "Header"@,
                header_value(config.headers@[i]),
            ))
        &&& self.filter_size@.len() == config.filter_size@.len()
        &&& (forall|i: int|
            0 <= i < config.filter_size@.len() ==> entry_is(
                #[trigger] self.filter_size@[i],
                "💢"@,
                "Size Filter"@,
                dec_str(config.filter_size@[i] as nat),
            ))
        &&& self.filter_similar@.len() == config.filter_similar@.len()
        &&& (forall|i: int|
            0 <= i < config.filter_similar@.len() ==> entry_is(
                #[trigger] self.filter_similar@[i],
                "💢"@,
                "Similarity Filter"@,
                config.filter_similar@[i]@,
            ))
        &&& self.filter_word_count@.len() == config.filter_word_count@.len()
        &&& (forall|i: int|
            0 <= i < config.filter_word_count@.len() ==> entry_is(
                #[trigger] self.filter_word_count@[i],
                "💢"@,
                "Word Count Filter"@,
                dec_str(config.filter_word_count@[i] as nat),
            ))
        &&& self.filter_line_count@.len() == config.filter_line_count@.len()
        &&& (forall|i: int|
            0 <= i < config.filter_line_count@.len() ==> entry_is(
                #[trigger] self.filter_line_count@[i],
                "💢"@,
                "Line Count Filter"@,
                dec_str(config.filter_line_count@[i] as nat),
            ))
        &&& self.filter_regex@.len() == config.filter_regex@.len()
        &&& (forall|i: int|
            0 <= i < config.filter_regex@.len() ==> entry_is(
                #[trigger] self.filter_regex@[i],
                "💢"@,
                "Regex Filter"@,
                config.filter_regex@[i]@,
            ))
        &&& entry_is(
            self.extract_links,
            "🔎"@,
            "Extract Links"@,
            bool_str(config.extract_links),
        )
        &&& entry_is(self.json, "🧔"@, "JSON Output"@, bool_str(config.json))
        &&& entry_is(self.output, "💾"@, "Output File"@, config.output@)
        &&& entry_is(self.debug_log, "🪲"@, "Debugging Log"@, config.debug_log@)
        &&& resolved_icon(self.extensions.icon@, "💲"@)
        &&& self.extensions.title@ == "Extensions"@
        &&& self.extensions.value@ == bracketed(str_views(config.extensions@))
        &&& entry_is(self.insecure, "🔓"@, "Insecure"@, bool_str(config.insecure))
        &&& entry_is(self.redirects, "📍"@, "Follow Redirects"@, bool_str(config.redirects))
        &&& entry_is(
            self.dont_filter,
            "🤪"@,
            "Filter Wildcards"@,
            bool_str(!config.dont_filter),
        )
        &&& self.queries@.len() == config.queries@.len()
        &&& (forall|i: int|
            0 <= i < config.queries@.len() ==> entry_is(
                #[trigger] self.queries@[i],
                "🤔"@,
                "Query Parameter"@,
                query_value(config.queries@[i]),
            ))
        &&& (1 <= config.verbosity <= 4 ==> entry_is(
            self.verbosity,
            volume_icon(config.verbosity),
            "Verbosity"@,
            dec_str(config.verbosity as nat),
        ))
        &&& entry_is(self.add_slash, "🪓"@, "Add Slash"@, bool_str(config.add_slash))
        &&& (config.no_recursion ==> entry_is(
            self.no_recursion,
            "🚫"@,
            "Do Not Recurse"@,
            "true"@,
        ))
        &&& (!config.no_recursion && config.depth == 0 ==> entry_is(
            self.no_recursion,
            "🔃"@,
            "Recursion Depth"@,
            "INFINITE"@,
        ))
        &&& (!config.no_recursion && config.depth > 0 ==> entry_is(
            self.no_recursion,
            "🔃"@,
            "Recursion Depth"@,
            dec_str(config.depth as nat),
        ))
        &&& entry_is(
            self.scan_limit,
            "🦥"@,
            "Concurrent Scan Limit"@,
            dec_str(config.scan_limit as nat),
        )
        &&& entry_is(self.time_limit, "🕖"@, "Time Limit"@, config.time_limit@)
        &&& entry_is(self.update_notice, "🎉"@, "New Version Available"@, release_url())
        &&& nerd_icon_ok(self.header_icon@)
        &&& footer_ok(self.footer@)
    }

    /// The front of the report model: the target entries, the always-emitted
    /// and adjacency-sensitive entries, and the repeated filter groups.
    #[verifier::opaque]
    pub open spec fn model_head(self, config: Configuration) -> Seq<BannerEntry> {
        let m = self.targets@;
        let m = m.push(self.threads).push(self.wordlist).push(self.status_codes);
        let m = if config.filter_status@.len() > 0 {
            m.push(self.filter_status)
        } else {
            m
        };
        let m = m.push(self.timeout).push(self.user_agent);
        let m = if config.config@.len() > 0 {
            m.push(self.config)
        } else {
            m
        };
        let m = if config.proxy@.len() > 0 {
            m.push(self.proxy)
        } else {
            m
        };
        let m = if config.replay_proxy@.len() > 0 {
            m.push(self.replay_proxy).push(self.replay_codes)
        } else {
            m
        };
        let m = m + self.headers@ + self.filter_size@ + self.filter_similar@
            + self.filter_word_count@ + self.filter_line_count@ + self.filter_regex@;
        m
    }

    /// The middle of the report model: the output-shaping entries that
    /// follow the filter groups.
    #[verifier::opaque]
    pub open spec fn model_mid(self, config: Configuration) -> Seq<BannerEntry> {
        let m = self.model_head(config);
        let m = if config.extract_links {
            m.push(self.extract_links)
        } else {
            m
        };
        let m = if config.json {
            m.push(self.json)
        } else {
            m
        };
        let m = m + self.queries@;
        let m = if config.output@.len() > 0 {
            m.push(self.output)
        } else {
            m
        };
        let m = if config.debug_log@.len() > 0 {
            m.push(self.debug_log)
        } else {
            m
        };
        let m = if config.extensions@.len() > 0 {
            m.push(self.extensions)
        } else {
            m
        };
        let m = if config.insecure {
            m.push(self.insecure)
        } else {
            m
        };
        let m = if config.redirects {
            m.push(self.redirects)
        } else {
            m
        };
        let m = if !config.dont_filter {
            m.push(self.dont_filter)
        } else {
            m
        };
        m
    }

    /// The report model: the ordered entry sequence the configuration calls
    /// for, every suppression a full omission.
    pub open spec fn model(self, config: Configuration) -> Seq<BannerEntry> {
        let m = self.model_mid(config);
        let m = if 1 <= config.verbosity && config.verbosity <= 4 {
            m.push(self.verbosity)
        } else {
            m
        };
        let m = if config.add_slash {
            m.push(self.add_slash)
        } else {
            m
        };
        let m = m.push(self.no_recursion);
        let m = if config.scan_limit > 0 {
            m.push(self.scan_limit)
        } else {
            m
        };
        let m = if config.time_limit@.len() > 0 {
            m.push(self.time_limit)
        } else {
            m
        };
        let m = if self.update_status is OutOfDate {
            m.push(self.update_notice)
        } else {
            m
        };
        m
    }

    /// The header: the tool identity and the running version, over the top
    /// rule of the frame.
    pub open spec fn header_line(self) -> Seq<char> {
        "\n ___  ___  __   __     __      __         __   ___\n|__  |__  |__) |__) | /  `    /  \\ \\_/ | |  \\ |__\n|    |___ |  \\ |  \\ | \\__,    \\__/ / \\ | |__/ |___\nby Ben \"epi\" Risher "@
            + self.header_icon@ + "                 ver: "@ + self.version@
            + "\n───────────────────────────┬──────────────────────"@
    }

    /// Every line of the rendered report, in order: header, the model's
    /// entries, footer.
    pub open spec fn report_lines(self, config: Configuration) -> Seq<Seq<char>> {
        seq![self.header_line()] + lines_of(self.model(config)) + seq![self.footer@]
    }

    /// Build the report from the live targets and the configuration
    /// snapshot. Pure aside from reading the terminal's color and emoji
    /// capability; the update status starts unknown.
    pub fn new(tgts: &[String], config: &Configuration) -> (r: Self)
        ensures
            r.built_from(str_views(tgts@), *config),
            r.version@ == tool_version(),
            r.update_status is Unknown,
    {
        let targets = target_entries(tgts);
        let sc = code_list(&config.status_codes);
        let status_codes = BannerEntry::new("👌", "Status Codes", sc.as_str());
        let fs = code_list(&config.filter_status);
        let filter_status = BannerEntry::new("🗑", "Status Code Filters", fs.as_str());
        let rc = code_list(&config.replay_codes);
        let replay_codes = BannerEntry::new("📼", "Replay Proxy Codes", rc.as_str());
        let threads_s = dec_string(config.threads as u64);
        let threads = BannerEntry::new("🚀", "Threads", threads_s.as_str());
        let wordlist = BannerEntry::new("📖", "Wordlist", config.wordlist.as_str());
        let timeout_s = dec_string(config.timeout);
        let timeout = BannerEntry::new("💥", "Timeout (secs)", timeout_s.as_str());
        let user_agent = BannerEntry::new("🦡", "User-Agent", config.user_agent.as_str());
        let cfg = BannerEntry::new("💉", "Config File", config.config.as_str());
        let proxy = BannerEntry::new("💎", "Proxy", config.proxy.as_str());
        let replay_proxy = BannerEntry::new("🎥", "Replay Proxy", config.replay_proxy.as_str());
        let headers = header_entries(&config.headers);
        let filter_size = dec_entries(&config.filter_size, "💢", "Size Filter");
        let filter_similar = str_entries(&config.filter_similar, "💢", "Similarity Filter");
        let filter_word_count = usize_entries(&config.filter_word_count, "💢", "Word Count Filter");
        let filter_line_count = usize_entries(&config.filter_line_count, "💢", "Line Count Filter");
        let filter_regex = str_entries(&config.filter_regex, "💢", "Regex Filter");
        let el = bool_string(config.extract_links);
        let extract_links = BannerEntry::new("🔎", "Extract Links", el.as_str());
        let js = bool_string(config.json);
        let json = BannerEntry::new("🧔", "JSON Output", js.as_str());
        let output = BannerEntry::new("💾", "Output File", config.output.as_str());
        let debug_log = BannerEntry::new("🪲", "Debugging Log", config.debug_log.as_str());
        let ex = bracket_join(&config.extensions);
        let extensions = BannerEntry::new("💲", "Extensions", ex.as_str());
        let ins = bool_string(config.insecure);
        let insecure = BannerEntry::new("🔓", "Insecure", ins.as_str());
        let re = bool_string(config.redirects);
        let redirects = BannerEntry::new("📍", "Follow Redirects", re.as_str());
        let df = bool_string(!config.dont_filter);
        let dont_filter = BannerEntry::new("🤪", "Filter Wildcards", df.as_str());
        let queries = query_entries(&config.queries);
        let verbosity = if 1 <= config.verbosity && config.verbosity <= 4 {
            let vs = dec_string(config.verbosity as u64);
            if config.verbosity == 1 {
                BannerEntry::new("🔈", "Verbosity", vs.as_str())
            } else if config.verbosity == 2 {
                BannerEntry::new("🔉", "Verbosity", vs.as_str())
            } else if config.verbosity == 3 {
                BannerEntry::new("🔊", "Verbosity", vs.as_str())
            } else {
                BannerEntry::new("📢", "Verbosity", vs.as_str())
            }
        } else {
            BannerEntry { icon: String::new(), title: String::new(), value: String::new() }
        };
        let add = bool_string(config.add_slash);
        let add_slash = BannerEntry::new("🪓", "Add Slash", add.as_str());
        let no_recursion = if !config.no_recursion {
            if config.depth == 0 {
                BannerEntry::new("🔃", "Recursion Depth", "INFINITE")
            } else {
                let d = dec_string(config.depth as u64);
                BannerEntry::new("🔃", "Recursion Depth", d.as_str())
            }
        } else {
            BannerEntry::new("🚫", "Do Not Recurse", "true")
        };
        let sl = dec_string(config.scan_limit as u64);
        let scan_limit = BannerEntry::new("🦥", "Concurrent Scan Limit", sl.as_str());
        let time_limit = BannerEntry::new("🕖", "Time Limit", config.time_limit.as_str());
        let update_notice = BannerEntry::new(
            "🎉",
            "New Version Available",
            "https://github.com/epi052/feroxbuster/releases/latest",
        );
        let header_icon = emoji_or_fallback("🤓", "  ");
        let footer = build_footer();
        Banner {
            targets,
            status_codes,
            filter_status,
            threads,
            wordlist,
            timeout,
            user_agent,
            config: cfg,
            proxy,
            replay_proxy,
            replay_codes,
            headers,
            filter_size,
            filter_similar,
            filter_word_count,
            filter_line_count,
            filter_regex,
            extract_links,
            json,
            output,
            debug_log,
            extensions,
            insecure,
            redirects,
            dont_filter,
            queries,
            verbosity,
            add_slash,
            no_recursion,
            scan_limit,
            time_limit,
            update_notice,
            header_icon,
            footer,
            version: String::from_str("2.3.1"),
            update_status: UpdateStatus::Unknown,
        }
    }

    /// Replace the running version, leaving every entry as it was.
    pub fn set_version(&mut self, version: String)
        ensures
            *final(self) == (Banner { version, ..*old(self) }),
    {
        self.version = version;
    }

    /// Digest the outcome of the release request: the response body where one
    /// arrived, or the transport failure that prevented one. The status is
    /// always set to what the outcome determines; failures never propagate,
    /// and the diagnostic cause comes back for logging where the status stays
    /// unknown.
    pub fn check_for_updates(&mut self, response: Result<&str, TransportFailure>) -> (diag: Option<
        CheckFailure,
    >)
        ensures
            *final(self) == (Banner {
                update_status: status_of_response(body_view(response), old(self).version@),
                ..*old(self)
            }),
            diag == diag_of_response(body_view(response)),
    {
        let (status, diag) = decide_update_status(response, self.version.as_str());
        self.update_status = status;
        diag
    }

    /// Render the header as one sink write.
    fn render_header(&self) -> (s: String)
        ensures
            s@ == self.header_line(),
    {
        let mut out = String::new();
        out.append(
            "\n ___  ___  __   __     __      __         __   ___\n|__  |__  |__) |__) | /  `    /  \\ \\_/ | |  \\ |__\n|    |___ |  \\ |  \\ | \\__,    \\__/ / \\ | |__/ |___\nby Ben \"epi\" Risher ",
        );
        out.append(self.header_icon.as_str());
        out.append("                 ver: ");
        out.append(self.version.as_str());
        out.append("\n───────────────────────────┬──────────────────────");
        proof {
            assert(out@ =~= self.header_line());
        }
        out
    }

    /// Serialize the header and the front of the model.
    #[verifier::rlimit(100)]
    fn render_front(&self, config: &Configuration) -> (lines: Vec<String>)
        ensures
            str_views(lines@) == seq![self.header_line()] + lines_of(self.model_head(*config)),
    {
        let ghost head: Seq<Seq<char>> = seq![self.header_line()];
        let mut lines: Vec<String> = Vec::new();
        let h = self.render_header();
        lines.push(h);
        let ghost mut es: Seq<BannerEntry> = Seq::empty();
        proof {
            assert(str_views(lines@) =~= head);
            assert(lines_of(es) =~= Seq::<Seq<char>>::empty());
            assert(head + lines_of(es) =~= str_views(lines@));
        }
        let mut i: usize = 0;
        while i < self.targets.len()
            invariant
                i <= self.targets@.len(),
                head == seq![self.header_line()],
                es == self.targets@.take(i as int),
                str_views(lines@) == head + lines_of(es),
            decreases self.targets@.len() - i,
        {
            push_line(&mut lines, &self.targets[i]);
            proof {
                Seq::push_distributes_over_add(head, lines_of(es), line_of(
                    self.targets@[i as int],
                ));
                lemma_lines_of_push(es, self.targets@[i as int]);
                assert(self.targets@.take(i + 1 as int) =~= es.push(self.targets@[i as int]));
                es = es.push(self.targets@[i as int]);
                assert(str_views(lines@) == head + lines_of(es));
            }
            i = i + 1;
        }
        proof {
            assert(self.targets@.take(self.targets@.len() as int) =~= self.targets@);
        }
        push_line(&mut lines, &self.threads);
        proof {
            Seq::push_distributes_over_add(head, lines_of(es), line_of(self.threads));
            lemma_lines_of_push(es, self.threads);
            es = es.push(self.threads);
            assert(str_views(lines@) == head + lines_of(es));
        }
        push_line(&mut lines, &self.wordlist);
        proof {
            Seq::push_distributes_over_add(head, lines_of(es), line_of(self.wordlist));
            lemma_lines_of_push(es, self.wordlist);
            es = es.push(self.wordlist);
            assert(str_views(lines@) == head + lines_of(es));
        }
        push_line(&mut lines, &self.status_codes);
        proof {
            Seq::push_distributes_over_add(head, lines_of(es), line_of(self.status_codes));
            lemma_lines_of_push(es, self.status_codes);
            es = es.push(self.status_codes);
            assert(str_views(lines@) == head + lines_of(es));
        }
        if !self.is_empty_codes(&config.filter_status) {
            push_line(&mut lines, &self.filter_status);
            proof {
                Seq::push_distributes_over_add(head, lines_of(es), line_of(self.filter_status));
                lemma_lines_of_push(es, self.filter_status);
                es = es.push(self.filter_status);
                assert(str_views(lines@) == head + lines_of(es));
            }
        }
        push_line(&mut lines, &self.timeout);
        proof {
            Seq::push_distributes_over_add(head, lines_of(es), line_of(self.timeout));
            lemma_lines_of_push(es, self.timeout);
            es = es.push(self.timeout);
            assert(str_views(lines@) == head + lines_of(es));
        }
        push_line(&mut lines, &self.user_agent);
        proof {
            Seq::push_distributes_over_add(head, lines_of(es), line_of(self.user_agent));
            lemma_lines_of_push(es, self.user_agent);
            es = es.push(self.user_agent);
            assert(str_views(lines@) == head + lines_of(es));
        }
        if !config.config.as_str().is_empty() {
            push_line(&mut lines, &self.config);
            proof {
                Seq::push_distributes_over_add(head, lines_of(es), line_of(self.config));
                lemma_lines_of_push(es, self.config);
                es = es.push(self.config);
                assert(str_views(lines@) == head + lines_of(es));
            }
        }
        if !config.proxy.as_str().is_empty() {
            push_line(&mut lines, &self.proxy);
            proof {
                Seq::push_distributes_over_add(head, lines_of(es), line_of(self.proxy));
                lemma_lines_of_push(es, self.proxy);
                es = es.push(self.proxy);
                assert(str_views(lines@) == head + lines_of(es));
            }
        }
        if !config.replay_proxy.as_str().is_empty() {
            push_line(&mut lines, &self.replay_proxy);
            proof {
                Seq::push_distributes_over_add(head, lines_of(es), line_of(self.replay_proxy));
                lemma_lines_of_push(es, self.replay_proxy);
                es = es.push(self.replay_proxy);
                assert(str_views(lines@) == head + lines_of(es));
            }
            push_line(&mut lines, &self.replay_codes);
            proof {
                Seq::push_distributes_over_add(head, lines_of(es), line_of(self.replay_codes));
                lemma_lines_of_push(es, self.replay_codes);
                es = es.push(self.replay_codes);
                assert(str_views(lines@) == head + lines_of(es));
            }
        }
        push_group(&mut lines, &self.headers);
        proof {
            lemma_lines_of_add(es, self.headers@);
            assert((head + lines_of(es)) + lines_of(self.headers@) =~= head + lines_of(
                es + self.headers@,
            ));
            es = es + self.headers@;
            assert(str_views(lines@) == head + lines_of(es));
        }
        push_group(&mut lines, &self.filter_size);
        proof {
            lemma_lines_of_add(es, self.filter_size@);
            assert((head + lines_of(es)) + lines_of(self.filter_size@) =~= head + lines_of(
                es + self.filter_size@,
            ));
            es = es + self.filter_size@;
            assert(str_views(lines@) == head + lines_of(es));
        }
        push_group(&mut lines, &self.filter_similar);
        proof {
            lemma_lines_of_add(es, self.filter_similar@);
            assert((head + lines_of(es)) + lines_of(self.filter_similar@) =~= head + lines_of(
                es + self.filter_similar@,
            ));
            es = es + self.filter_similar@;
            assert(str_views(lines@) == head + lines_of(es));
        }
        push_group(&mut lines, &self.filter_word_count);
        proof {
            lemma_lines_of_add(es, self.filter_word_count@);
            assert((head + lines_of(es)) + lines_of(self.filter_word_count@) =~= head + lines_of(
                es + self.filter_word_count@,
            ));
            es = es + self.filter_word_count@;
            assert(str_views(lines@) == head + lines_of(es));
        }
        push_group(&mut lines, &self.filter_line_count);
        proof {
            lemma_lines_of_add(es, self.filter_line_count@);
            assert((head + lines_of(es)) + lines_of(self.filter_line_count@) =~= head + lines_of(
                es + self.filter_line_count@,
            ));
            es = es + self.filter_line_count@;
            assert(str_views(lines@) == head + lines_of(es));
        }
        push_group(&mut lines, &self.filter_regex);
        proof {
            lemma_lines_of_add(es, self.filter_regex@);
            assert((head + lines_of(es)) + lines_of(self.filter_regex@) =~= head + lines_of(
                es + self.filter_regex@,
            ));
            es = es + self.filter_regex@;
            assert(str_views(lines@) == head + lines_of(es));
        }
        proof {
            reveal(Banner::model_head);
            assert(es == self.model_head(*config));
        }
        lines
    }

    /// Serialize the header and the model through its output-shaping
    /// entries.
    #[verifier::rlimit(100)]
    fn render_mid(&self, config: &Configuration) -> (lines: Vec<String>)
        ensures
            str_views(lines@) == seq![self.header_line()] + lines_of(self.model_mid(*config)),
    {
        let ghost head: Seq<Seq<char>> = seq![self.header_line()];
        let mut lines = self.render_front(config);
        let ghost mut es: Seq<BannerEntry> = self.model_head(*config);
        if config.extract_links {
            push_line(&mut lines, &self.extract_links);
            proof {
                Seq::push_distributes_over_add(head, lines_of(es), line_of(self.extract_links));
                lemma_lines_of_push(es, self.extract_links);
                es = es.push(self.extract_links);
                assert(str_views(lines@) == head + lines_of(es));
            }
        }
        if config.json {
            push_line(&mut lines, &self.json);
            proof {
                Seq::push_distributes_over_add(head, lines_of(es), line_of(self.json));
                lemma_lines_of_push(es, self.json);
                es = es.push(self.json);
                assert(str_views(lines@) == head + lines_of(es));
            }
        }
        push_group(&mut lines, &self.queries);
        proof {
            lemma_lines_of_add(es, self.queries@);
            assert((head + lines_of(es)) + lines_of(self.queries@) =~= head + lines_of(
                es + self.queries@,
            ));
            es = es + self.queries@;
            assert(str_views(lines@) == head + lines_of(es));
        }
        if !config.output.as_str().is_empty() {
            push_line(&mut lines, &self.output);
            proof {
                Seq::push_distributes_over_add(head, lines_of(es), line_of(self.output));
                lemma_lines_of_push(es, self.output);
                es = es.push(self.output);
                assert(str_views(lines@) == head + lines_of(es));
            }
        }
        if !config.debug_log.as_str().is_empty() {
            push_line(&mut lines, &self.debug_log);
            proof {
                Seq::push_distributes_over_add(head, lines_of(es), line_of(self.debug_log));
                lemma_lines_of_push(es, self.debug_log);
                es = es.push(self.debug_log);
                assert(str_views(lines@) == head + lines_of(es));
            }
        }
        if config.extensions.len() > 0 {
            push_line(&mut lines, &self.extensions);
            proof {
                Seq::push_distributes_over_add(head, lines_of(es), line_of(self.extensions));
                lemma_lines_of_push(es, self.extensions);
                es = es.push(self.extensions);
                assert(str_views(lines@) == head + lines_of(es));
            }
        }
        if config.insecure {
            push_line(&mut lines, &self.insecure);
            proof {
                Seq::push_distributes_over_add(head, lines_of(es), line_of(self.insecure));
                lemma_lines_of_push(es, self.insecure);
                es = es.push(self.insecure);
                assert(str_views(lines@) == head + lines_of(es));
            }
        }
        if config.redirects {
            push_line(&mut lines, &self.redirects);
            proof {
                Seq::push_distributes_over_add(head, lines_of(es), line_of(self.redirects));
                lemma_lines_of_push(es, self.redirects);
                es = es.push(self.redirects);
                assert(str_views(lines@) == head + lines_of(es));
            }
        }
        if !config.dont_filter {
            push_line(&mut lines, &self.dont_filter);
            proof {
                Seq::push_distributes_over_add(head, lines_of(es), line_of(self.dont_filter));
                lemma_lines_of_push(es, self.dont_filter);
                es = es.push(self.dont_filter);
                assert(str_views(lines@) == head + lines_of(es));
            }
        }
        proof {
            reveal(Banner::model_mid);
            assert(es == self.model_mid(*config));
        }
        lines
    }

    /// Serialize the report into its ordered lines: header, entries, footer.
    #[verifier::rlimit(100)]
    pub fn render_lines(&self, config: &Configuration) -> (lines: Vec<String>)
        ensures
            str_views(lines@) == self.report_lines(*config),
    {
        let ghost head: Seq<Seq<char>> = seq![self.header_line()];
        let mut lines = self.render_mid(config);
        let ghost mut es: Seq<BannerEntry> = self.model_mid(*config);
        if 1 <= config.verbosity && config.verbosity <= 4 {
            push_line(&mut lines, &self.verbosity);
            proof {
                Seq::push_distributes_over_add(head, lines_of(es), line_of(self.verbosity));
                lemma_lines_of_push(es, self.verbosity);
                es = es.push(self.verbosity);
                assert(str_views(lines@) == head + lines_of(es));
            }
        }
        if config.add_slash {
            push_line(&mut lines, &self.add_slash);
            proof {
                Seq::push_distributes_over_add(head, lines_of(es), line_of(self.add_slash));
                lemma_lines_of_push(es, self.add_slash);
                es = es.push(self.add_slash);
                assert(str_views(lines@) == head + lines_of(es));
            }
        }
        push_line(&mut lines, &self.no_recursion);
        proof {
            Seq::push_distributes_over_add(head, lines_of(es), line_of(self.no_recursion));
            lemma_lines_of_push(es, self.no_recursion);
            es = es.push(self.no_recursion);
            assert(str_views(lines@) == head + lines_of(es));
        }
        if config.scan_limit > 0 {
            push_line(&mut lines, &self.scan_limit);
            proof {
                Seq::push_distributes_over_add(head, lines_of(es), line_of(self.scan_limit));
                lemma_lines_of_push(es, self.scan_limit);
                es = es.push(self.scan_limit);
                assert(str_views(lines@) == head + lines_of(es));
            }
        }
        if !config.time_limit.as_str().is_empty() {
            push_line(&mut lines, &self.time_limit);
            proof {
                Seq::push_distributes_over_add(head, lines_of(es), line_of(self.time_limit));
                lemma_lines_of_push(es, self.time_limit);
                es = es.push(self.time_limit);
                assert(str_views(lines@) == head + lines_of(es));
            }
        }
        if matches!(self.update_status, UpdateStatus::OutOfDate) {
            push_line(&mut lines, &self.update_notice);
            proof {
                Seq::push_distributes_over_add(head, lines_of(es), line_of(self.update_notice));
                lemma_lines_of_push(es, self.update_notice);
                es = es.push(self.update_notice);
                assert(str_views(lines@) == head + lines_of(es));
            }
        }
        let f = self.footer.clone();
        let ghost fv = f;
        let ghost lv = lines@;
        lines.push(f);
        proof {
            lemma_str_views_push(lv, fv);
            assert((head + lines_of(es)).push(self.footer@) =~= head + lines_of(es) + seq![
                self.footer@,
            ]);
            assert(es == self.model(*config));
            assert(str_views(lines@) == head + lines_of(es) + seq![self.footer@]);
            assert(str_views(lines@) == self.report_lines(*config));
        }
        lines
    }

    /// Whether a code list is empty; a reading of the snapshot kept next to
    /// the renderer for symmetry with its specification.
    fn is_empty_codes(&self, codes: &Vec<u16>) -> (r: bool)
        ensures
            r == (codes@.len() == 0),
    {
        codes.len() == 0
    }

    /// Write the whole report, line by line, to the sink: the header, every
    /// entry the configuration calls for, the update notice exactly when the
    /// last check found a newer release, and the footer. Stops at the first
    /// failed write, leaving the lines already written in place.
    pub fn print_to<S: Sink>(&self, writer: &mut S, config: &Configuration) -> (r: Result<
        (),
        WriteFailure,
    >)
        ensures
            r is Ok ==> final(writer).content() == old(writer).content() + joined(
                self.report_lines(*config),
            ),
            r is Err ==> exists|k: int|
                0 <= k <= self.report_lines(*config).len() && final(writer).content() == old(
                    writer,
                ).content() + joined(self.report_lines(*config).take(k)),
            old(writer).infallible() ==> r is Ok,
    {
        let lines = self.render_lines(config);
        let ghost all = self.report_lines(*config);
        let ghost base = writer.content();
        proof {
            assert(all.take(0).len() == 0);
            assert(base + joined(all.take(0)) =~= base);
        }
        let mut i: usize = 0;
        while i < lines.len()
            invariant
                all == self.report_lines(*config),
                str_views(lines@) == all,
                lines@.len() == all.len(),
                i <= lines@.len(),
                base == old(writer).content(),
                old(writer).infallible() ==> writer.infallible(),
                writer.content() == base + joined(all.take(i as int)),
            decreases lines@.len() - i,
        {
            match writer.write_line(lines[i].as_str()) {
                Ok(_) => {},
                Err(e) => {
                    proof {
                        assert(0 <= i as int <= self.report_lines(*config).len());
                        assert(writer.content() == old(writer).content() + joined(
                            self.report_lines(*config).take(i as int),
                        ));
                    }
                    return Err(e);
                },
            }
            proof {
                let prev = all.take(i as int);
                let next = all.take(i + 1 as int);
                assert(next.drop_last() =~= prev);
                assert(next.last() == all[i as int]);
                assert(all[i as int] == lines@[i as int]@);
                assert(joined(next) == joined(prev) + all[i as int] + "\n"@);
                assert(base + joined(prev) + lines@[i as int]@ + "\n"@ =~= base + joined(next));
            }
            i = i + 1;
        }
        proof {
            assert(all.take(all.len() as int) =~= all);
        }
        Ok(())
    }
}

/// One target entry per live target, in order.
fn target_entries(tgts: &[String]) -> (v: Vec<BannerEntry>)
    ensures
        v@.len() == tgts@.len(),
        forall|i: int|
            0 <= i < tgts@.len() ==> entry_is(#[trigger] v@[i], "🎯"@, "Target Url"@, tgts@[i]@),
{
    let mut v: Vec<BannerEntry> = Vec::new();
    let mut i: usize = 0;
    while i < tgts.len()
        invariant
            i <= tgts@.len(),
            v@.len() == i,
            forall|j: int|
                0 <= j < i ==> entry_is(#[trigger] v@[j], "🎯"@, "Target Url"@, tgts@[j]@),
        decreases tgts@.len() - i,
    {
        v.push(BannerEntry::new("🎯", "Target Url", tgts[i].as_str()));
        i = i + 1;
    }
    v
}

/// One header entry per name/value pair, in order.
fn header_entries(headers: &Vec<(String, String)>) -> (v: Vec<BannerEntry>)
    ensures
        v@.len() == headers@.len(),
        forall|i: int|
            0 <= i < headers@.len() ==> entry_is(
                #[trigger] v@[i],
                "🤯"@,
                "Header"@,
                header_value(headers@[i]),
            ),
{
    let mut v: Vec<BannerEntry> = Vec::new();
    let mut i: usize = 0;
    while i < headers.len()
        invariant
            i <= headers@.len(),
            v@.len() == i,
            forall|j: int|
                0 <= j < i ==> entry_is(#[trigger] v@[j], "🤯"@, "Header"@, header_value(
                    headers@[j],
                )),
        decreases headers@.len() - i,
    {
        let mut value = String::new();
        value.append(headers[i].0.as_str());
        value.append(": ");
        value.append(headers[i].1.as_str());
        proof {
            assert(value@ =~= header_value(headers@[i as int]));
        }
        v.push(BannerEntry::new("🤯", "Header", value.as_str()));
        i = i + 1;
    }
    v
}

/// One query-parameter entry per key/value pair, in order.
fn query_entries(queries: &Vec<(String, String)>) -> (v: Vec<BannerEntry>)
    ensures
        v@.len() == queries@.len(),
        forall|i: int|
            0 <= i < queries@.len() ==> entry_is(
                #[trigger] v@[i],
                "🤔"@,
                "Query Parameter"@,
                query_value(queries@[i]),
            ),
{
    let mut v: Vec<BannerEntry> = Vec::new();
    let mut i: usize = 0;
    while i < queries.len()
        invariant
            i <= queries@.len(),
            v@.len() == i,
            forall|j: int|
                0 <= j < i ==> entry_is(#[trigger] v@[j], "🤔"@, "Query Parameter"@, query_value(
                    queries@[j],
                )),
        decreases queries@.len() - i,
    {
        let mut value = String::new();
        value.append(queries[i].0.as_str());
        value.append("=");
        value.append(queries[i].1.as_str());
        proof {
            assert(value@ =~= query_value(queries@[i as int]));
        }
        v.push(BannerEntry::new("🤔", "Query Parameter", value.as_str()));
        i = i + 1;
    }
    v
}

/// One entry per numeric filter value, in order, rendered in decimal.
fn dec_entries(values: &Vec<u64>, emoji: &str, title: &str) -> (v: Vec<BannerEntry>)
    ensures
        v@.len() == values@.len(),
        forall|i: int|
            0 <= i < values@.len() ==> entry_is(
                #[trigger] v@[i],
                emoji@,
                title@,
                dec_str(values@[i] as nat),
            ),
{
    let mut v: Vec<BannerEntry> = Vec::new();
    let mut i: usize = 0;
    while i < values.len()
        invariant
            i <= values@.len(),
            v@.len() == i,
            forall|j: int|
                0 <= j < i ==> entry_is(#[trigger] v@[j], emoji@, title@, dec_str(
                    values@[j] as nat,
                )),
        decreases values@.len() - i,
    {
        let d = dec_string(values[i]);
        v.push(BannerEntry::new(emoji, title, d.as_str()));
        i = i + 1;
    }
    v
}

/// One entry per numeric filter value, in order, rendered in decimal.
fn usize_entries(values: &Vec<usize>, emoji: &str, title: &str) -> (v: Vec<BannerEntry>)
    ensures
        v@.len() == values@.len(),
        forall|i: int|
            0 <= i < values@.len() ==> entry_is(
                #[trigger] v@[i],
                emoji@,
                title@,
                dec_str(values@[i] as nat),
            ),
{
    let mut v: Vec<BannerEntry> = Vec::new();
    let mut i: usize = 0;
    while i < values.len()
        invariant
            i <= values@.len(),
            v@.len() == i,
            forall|j: int|
                0 <= j < i ==> entry_is(#[trigger] v@[j], emoji@, title@, dec_str(
                    values@[j] as nat,
                )),
        decreases values@.len() - i,
    {
        let d = dec_string(values[i] as u64);
        v.push(BannerEntry::new(emoji, title, d.as_str()));
        i = i + 1;
    }
    v
}

/// One entry per textual filter value, in order.
fn str_entries(values: &Vec<String>, emoji: &str, title: &str) -> (v: Vec<BannerEntry>)
    ensures
        v@.len() == values@.len(),
        forall|i: int|
            0 <= i < values@.len() ==> entry_is(#[trigger] v@[i], emoji@, title@, values@[i]@),
{
    let mut v: Vec<BannerEntry> = Vec::new();
    let mut i: usize = 0;
    while i < values.len()
        invariant
            i <= values@.len(),
            v@.len() == i,
            forall|j: int| 0 <= j < i ==> entry_is(#[trigger] v@[j], emoji@, title@, values@[j]@),
        decreases values@.len() - i,
    {
        v.push(BannerEntry::new(emoji, title, values[i].as_str()));
        i = i + 1;
    }
    v
}

/// Render a code list as a bracketed, comma-joined, colorized sequence.
fn code_list(codes: &Vec<u16>) -> (s: String)
    ensures
        code_list_as(s@, codes@),
{
    let mut parts: Vec<String> = Vec::new();
    let mut i: usize = 0;
    while i < codes.len()
        invariant
            i <= codes@.len(),
            parts@.len() == i,
            forall|j: int| 0 <= j < i ==> colorized_as(#[trigger] parts@[j]@, codes@[j]),
        decreases codes@.len() - i,
    {
        parts.push(colorize_status(codes[i]));
        i = i + 1;
    }
    let out = bracket_join(&parts);
    proof {
        let ghost ps = str_views(parts@);
        assert(ps.len() == codes@.len());
        assert forall|j: int| 0 <= j < codes@.len() implies colorized_as(#[trigger] ps[j], codes@[j]) by {
            assert(ps[j] == parts@[j]@);
        }
        assert(code_list_as(out@, codes@));
    }
    out
}

/// Resolve the footer for the current terminal.
fn build_footer() -> (f: String)
    ensures
        footer_ok(f@),
{
    let mut out = String::new();
    out.append("───────────────────────────┴──────────────────────\n 🏁  Press [");
    let enter = style_yellow("ENTER");
    out.append(enter.as_str());
    out.append("] to use the ");
    let menu = style_bright_yellow("Scan Cancel Menu");
    out.append(menu.as_str());
    out.append("™\n──────────────────────────────────────────────────");
    proof {
        assert(out@ =~= footer_text(enter@, menu@));
        assert(footer_ok(out@));
    }
    out
}

/// Append the rendered line of one entry.
fn push_line(lines: &mut Vec<String>, e: &BannerEntry)
    ensures
        str_views(final(lines)@) == str_views(old(lines)@).push(line_of(*e)),
{
    let s = e.render_line();
    let ghost sv = s;
    let ghost lv = lines@;
    lines.push(s);
    proof {
        lemma_str_views_push(lv, sv);
    }
}

/// Append the rendered line of every entry of a group, in order.
fn push_group(lines: &mut Vec<String>, group: &Vec<BannerEntry>)
    ensures
        str_views(final(lines)@) == str_views(old(lines)@) + lines_of(group@),
{
    let ghost base = str_views(lines@);
    proof {
        assert(lines_of(group@.take(0)) =~= Seq::<Seq<char>>::empty());
        assert(base + lines_of(group@.take(0)) =~= base);
    }
    let mut i: usize = 0;
    while i < group.len()
        invariant
            i <= group@.len(),
            base == str_views(old(lines)@),
            str_views(lines@) == base + lines_of(group@.take(i as int)),
        decreases group@.len() - i,
    {
        push_line(lines, &group[i]);
        proof {
            Seq::push_distributes_over_add(base, lines_of(group@.take(i as int)), line_of(
                group@[i as int],
            ));
            lemma_lines_of_push(group@.take(i as int), group@[i as int]);
            assert(group@.take(i + 1 as int) =~= group@.take(i as int).push(group@[i as int]));
        }
        i = i + 1;
    }
    proof {
        assert(group@.take(group@.len() as int) =~= group@);
    }
}

} // verus!
