use vstd::prelude::*;

verus! {

/// Index of the first ':' in `s`, or its length when there is none.
pub open spec fn first_colon(s: Seq<char>) -> nat
    decreases s.len(),
{
    if s.len() == 0 {
        0
    } else if s[0] == ':' {
        0
    } else {
        1 + first_colon(s.drop_first())
    }
}

proof fn lemma_first_colon(s: Seq<char>, i: int)
    requires
        0 <= i <= s.len(),
        forall|j: int| 0 <= j < i ==> s[j] != ':',
        i == s.len() || s[i] == ':',
    ensures
        first_colon(s) == i,
    decreases i,
{
    if i > 0 {
        lemma_first_colon(s.drop_first(), i - 1);
    }
}

/// Directories the host platform hands to the application, and the paths
/// derived from them.
#[derive(Debug, Clone)]
pub struct FnosEnv {
    /// Directory of the application's executables.
    pub app_dest: String,
    /// Colon-separated data roots; the first one is used.
    pub data_share_paths: String,
    /// Configuration directory.
    pub pkg_etc: String,
    /// Directory of changing data.
    pub pkg_var: String,
    /// Directory of temporary files.
    pub pkg_tmp: String,
}

/// The data directory: the first of the colon-separated data roots.
pub open spec fn data_dir_of(e: FnosEnv) -> Seq<char> {
    e.data_share_paths@.subrange(0, first_colon(e.data_share_paths@) as int)
}

impl FnosEnv {
    /// Settings from the values the environment gave (`None` where a
    /// variable is unset). The application directory is required; the data
    /// roots default to "/tmp/clamav_data", the configuration and data
    /// directories to "config" and "var" under the application directory,
    /// temporary files to "/tmp".
    pub fn from_values(
        app_dest: Option<String>,
        data_share_paths: Option<String>,
        pkg_etc: Option<String>,
        pkg_var: Option<String>,
        pkg_tmp: Option<String>,
    ) -> (r: Result<FnosEnv, String>)
        ensures
            app_dest is None ==> (r matches Err(m) && m@ == "TRIM_APPDEST not set"@),
            app_dest matches Some(a) ==> (r matches Ok(e) && e.app_dest == a
                && e.data_share_paths@ == (match data_share_paths { Some(d) => d@, None => "/tmp/clamav_data"@ })
                && e.pkg_etc@ == (match pkg_etc { Some(d) => d@, None => a@ + "/config"@ })
                && e.pkg_var@ == (match pkg_var { Some(d) => d@, None => a@ + "/var"@ })
                && e.pkg_tmp@ == (match pkg_tmp { Some(d) => d@, None => "/tmp"@ })),
    {
        let app_dest = match app_dest {
            Some(a) => a,
            None => {
                return Err(String::from_str("TRIM_APPDEST not set"));
            },
        };
        let data_share_paths = match data_share_paths {
            Some(d) => d,
            None => String::from_str("/tmp/clamav_data"),
        };
        let pkg_etc = match pkg_etc {
            Some(d) => d,
            None => app_dest.clone().concat("/config"),
        };
        let pkg_var = match pkg_var {
            Some(d) => d,
            None => app_dest.clone().concat("/var"),
        };
        let pkg_tmp = match pkg_tmp {
            Some(d) => d,
            None => String::from_str("/tmp"),
        };
        Ok(FnosEnv { app_dest, data_share_paths, pkg_etc, pkg_var, pkg_tmp })
    }

    /// The first data root.
    pub fn data_dir(&self) -> (r: String)
        ensures
            r@ == data_dir_of(*self),
    {
        let s = self.data_share_paths.as_str();
        let n = s.unicode_len();
        let mut k = n;
        let mut i: usize = 0;
        while i < n
            invariant
                n == s@.len(),
                0 <= i <= n,
                k <= n,
                k < n ==> k < i && s@[k as int] == ':',
                forall|j: int| 0 <= j < i && j < k ==> s@[j] != ':',
            decreases n - i,
        {
            if k == n && s.get_char(i) == ':' {
                k = i;
            }
            i += 1;
        }
        proof {
            lemma_first_colon(s@, k as int);
        }
        s.substring_char(0, k).to_owned()
    }

    /// The scanner wrapper program.
    pub fn clamscan_bin(&self) -> (r: String)
        ensures
            r@ == self.app_dest@ + "/bin/clamscan"@,
    {
        self.app_dest.clone().concat("/bin/clamscan")
    }

    /// The signature updater program.
    pub fn freshclam_bin(&self) -> (r: String)
        ensures
            r@ == self.app_dest@ + "/bin/freshclam"@,
    {
        self.app_dest.clone().concat("/bin/freshclam")
    }

    /// The signature database directory.
    pub fn clamav_db_dir(&self) -> (r: String)
        ensures
            r@ == data_dir_of(*self) + "/clamav"@,
    {
        self.data_dir().concat("/clamav")
    }

    /// The quarantine vault.
    pub fn quarantine_dir(&self) -> (r: String)
        ensures
            r@ == data_dir_of(*self) + "/quarantine"@,
    {
        self.data_dir().concat("/quarantine")
    }

    /// The scan history database.
    pub fn history_db(&self) -> (r: String)
        ensures
            r@ == data_dir_of(*self) + "/history.db"@,
    {
        self.data_dir().concat("/history.db")
    }

    /// The settings file.
    pub fn settings_file(&self) -> (r: String)
        ensures
            r@ == self.pkg_etc@ + "/settings.json"@,
    {
        self.pkg_etc.clone().concat("/settings.json")
    }

    /// The file recording scan state.
    pub fn scan_state_file(&self) -> (r: String)
        ensures
            r@ == self.pkg_var@ + "/scan_state.json"@,
    {
        self.pkg_var.clone().concat("/scan_state.json")
    }

    /// The daemon's log file.
    pub fn log_file(&self) -> (r: String)
        ensures
            r@ == self.pkg_var@ + "/daemon.log"@,
    {
        self.pkg_var.clone().concat("/daemon.log")
    }

    /// The daemon's process-id file.
    pub fn pid_file(&self) -> (r: String)
        ensures
            r@ == self.pkg_var@ + "/daemon.pid"@,
    {
        self.pkg_var.clone().concat("/daemon.pid")
    }
}

} // verus!
