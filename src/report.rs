use vstd::prelude::*;
use crate::decode::{is_port_text, port_number};
use crate::metrics::K6Metric;
use crate::query::{filter_text, query_text, Filter, Query, QueryBuildError};
use crate::text::{join_strings, string_views};
use crate::timestamp::{fits_i64, minutes_before, rfc3339_of, UtcTimestamp};

verus! {

/// A username and its password.
#[derive(Clone, Debug)]
pub struct Credentials {
    pub username: String,
    pub password: String,
}

/// Why an export session could not be set up.
#[derive(Clone, Copy, Debug, PartialEq, Eq, Structural)]
pub enum SessionError {
    /// The host is empty, or the port is not a port number.
    MalformedConnection,
    /// A username was given without a password, or a password without a username.
    IncompleteCredentials,
}

/// The parameters of one extraction run, fixed when it starts.
#[derive(Clone, Debug)]
pub struct K6Report {
    /// The instant the run started; every time bound is taken from it.
    pub invoked_at: UtcTimestamp,
    pub output_directory: String,
    /// Where the database listens: `scheme://host:port`.
    pub connection_url: String,
    pub database: String,
    /// Present where the database is to be reached with authentication.
    pub credentials: Option<Credentials>,
    pub retention_policy_name: String,
    /// How many minutes before `invoked_at` the exported records start.
    pub from: Option<u64>,
    pub exclude_setup_steps: bool,
    pub exclude_teardown_steps: bool,
}

pub open spec fn connection_url_text(host: Seq<char>, port: Seq<char>, https: bool) -> Seq<char> {
    (if https {
        "https://"@
    } else {
        "http://"@
    }) + host + ":"@ + port
}

pub open spec fn credentials_model(c: Option<Credentials>) -> Option<(Seq<char>, Seq<char>)> {
    match c {
        Some(c) => Some((c.username@, c.password@)),
        None => None,
    }
}

/// Why a session with these connection parameters and credentials cannot be
/// set up, if it cannot: a malformed connection target first, then a lone
/// username or password.
pub open spec fn session_error(
    host: Seq<char>,
    port: Seq<char>,
    username: Option<String>,
    password: Option<String>,
) -> Option<SessionError> {
    if host.len() == 0 || !is_port_text(port) {
        Some(SessionError::MalformedConnection)
    } else if username.is_some() != password.is_some() {
        Some(SessionError::IncompleteCredentials)
    } else {
        None
    }
}

/// Whether `s` holds exactly the given options, whatever its start instant.
pub open spec fn session_holds(
    s: K6Report,
    host: Seq<char>,
    port: Seq<char>,
    database: Seq<char>,
    username: Option<String>,
    password: Option<String>,
    https: bool,
    from: Option<u64>,
    exclude_setup_steps: bool,
    exclude_teardown_steps: bool,
    output_directory: Seq<char>,
) -> bool {
    &&& s.connection_url@ == connection_url_text(host, port, https)
    &&& s.database@ == database
    &&& s.retention_policy_name@ == "autogen"@
    &&& s.output_directory@ == output_directory
    &&& s.from == from
    &&& s.exclude_setup_steps == exclude_setup_steps
    &&& s.exclude_teardown_steps == exclude_teardown_steps
    &&& credentials_model(s.credentials) == match (username, password) {
        (Some(u), Some(p)) => Some((u@, p@)),
        _ => None::<(Seq<char>, Seq<char>)>,
    }
}

impl K6Report {
    /// The RFC 3339 text of the lower time bound, or `None` where that bound
    /// cannot be represented.
    pub open spec fn lower_bound_text(&self, minutes: u64) -> Option<Seq<char>> {
        let s = minutes_before(self.invoked_at.seconds as int, minutes as int);
        if fits_i64(s) {
            rfc3339_of(s, self.invoked_at.nanos as int)
        } else {
            None
        }
    }

    /// Whether the filters of this session can be written.
    pub open spec fn query_buildable(&self) -> bool {
        match self.from {
            Some(m) => self.lower_bound_text(m) is Some,
            None => true,
        }
    }

    /// The time predicate of this session, where it has one.
    pub open spec fn time_filters(&self) -> Seq<Filter> {
        match self.from {
            Some(m) => seq![Filter::TimeFrom(self.lower_bound_text(m)->Some_0)],
            None => Seq::empty(),
        }
    }

    /// The predicates that a query for a series of this session carries.
    pub open spec fn filters(&self, applies_exclusion_filters: bool) -> Seq<Filter> {
        self.time_filters() + (if self.exclude_setup_steps && applies_exclusion_filters {
            seq![Filter::ExcludeSetup]
        } else {
            Seq::empty()
        }) + (if self.exclude_teardown_steps && applies_exclusion_filters {
            seq![Filter::ExcludeTeardown]
        } else {
            Seq::empty()
        })
    }

    /// The text of the query that this session builds for `metric`.
    pub open spec fn query_for<M: K6Metric>(&self, metric: &M) -> Seq<char> {
        query_text(
            self.database@,
            self.retention_policy_name@,
            metric.table_name_spec(),
            metric.query_fields_spec(),
            self.filters(metric.applies_exclusion_filters_spec()),
        )
    }

    /// Sets up a session that started at `invoked_at`. The host must be
    /// non-empty and the port a port number; credentials are used only where
    /// both are given, and one without the other is refused.
    pub fn with_invoked_at(
        invoked_at: UtcTimestamp,
        host: &String,
        port: &String,
        database: &String,
        username: &Option<String>,
        password: &Option<String>,
        https: bool,
        from: Option<u64>,
        exclude_setup_steps: bool,
        exclude_teardown_steps: bool,
        output_directory: &String,
    ) -> (r: Result<K6Report, SessionError>)
        ensures
            match session_error(host@, port@, *username, *password) {
                Some(e) => r == Err::<K6Report, SessionError>(e),
                None => r matches Ok(s) && s.invoked_at == invoked_at && session_holds(
                    s,
                    host@,
                    port@,
                    database@,
                    *username,
                    *password,
                    https,
                    from,
                    exclude_setup_steps,
                    exclude_teardown_steps,
                    output_directory@,
                ),
            },
    {
        if host.unicode_len() == 0 || port_number(port.as_str()).is_none() {
            return Err(SessionError::MalformedConnection);
        }
        let credentials = match (username, password) {
            (Some(u), Some(p)) => Some(Credentials { username: u.clone(), password: p.clone() }),
            (None, None) => None,
            _ => {
                return Err(SessionError::IncompleteCredentials);
            },
        };
        let mut url = if https {
            String::from_str("https://")
        } else {
            String::from_str("http://")
        };
        url.append(host.as_str());
        url.append(":");
        url.append(port.as_str());
        Ok(
            K6Report {
                invoked_at,
                output_directory: output_directory.clone(),
                connection_url: url,
                database: database.clone(),
                credentials,
                retention_policy_name: String::from_str("autogen"),
                from,
                exclude_setup_steps,
                exclude_teardown_steps,
            },
        )
    }

    /// Sets up a session that starts now.
    pub fn new(
        host: &String,
        port: &String,
        database: &String,
        username: &Option<String>,
        password: &Option<String>,
        https: &bool,
        from: &Option<u64>,
        exclude_setup_steps: &bool,
        exclude_teardown_steps: &bool,
        output_directory: &String,
    ) -> (r: Result<K6Report, SessionError>)
        ensures
            match session_error(host@, port@, *username, *password) {
                Some(e) => r == Err::<K6Report, SessionError>(e),
                None => r matches Ok(s) && session_holds(
                    s,
                    host@,
                    port@,
                    database@,
                    *username,
                    *password,
                    *https,
                    *from,
                    *exclude_setup_steps,
                    *exclude_teardown_steps,
                    output_directory@,
                ),
            },
    {
        let now = UtcTimestamp::now();
        K6Report::with_invoked_at(
            now,
            host,
            port,
            database,
            username,
            password,
            *https,
            *from,
            *exclude_setup_steps,
            *exclude_teardown_steps,
            output_directory,
        )
    }

    /// The path of the CSV file of the series `metric_name`:
    /// `{output_directory}/{metric_name}.csv`.
    pub fn output_path(&self, metric_name: &str) -> (r: String)
        ensures
            r@ == self.output_directory@ + "/"@ + metric_name@ + ".csv"@,
    {
        let mut r = self.output_directory.clone();
        r.append("/");
        r.append(metric_name);
        r.append(".csv");
        r
    }

    /// Whether the database is reached with authentication.
    pub fn authenticated(&self) -> (r: bool)
        ensures
            r == self.credentials is Some,
    {
        self.credentials.is_some()
    }

    /// The query that exports `metric`: its fields in order, from its series
    /// under this session's database and retention policy, filtered by the
    /// session's time bound and, where they apply to the metric, its
    /// setup/teardown exclusions.
    pub fn build_query<M: K6Metric>(&self, metric: &M) -> (r: Result<Query, QueryBuildError>)
        ensures
            r is Ok <==> self.query_buildable(),
            r matches Err(e) ==> e == QueryBuildError::TimeOutOfRange,
            r matches Ok(q) ==> q@ == self.query_for(metric),
    {
        let applies = metric.exclusion_filters_apply();
        let ghost mut fs: Seq<Filter> = Seq::empty();
        let mut filters: Vec<String> = Vec::new();
        match self.from {
            Some(m) => {
                let bound = match self.invoked_at.minus_minutes(m) {
                    Some(t) => t,
                    None => {
                        return Err(QueryBuildError::TimeOutOfRange);
                    },
                };
                let text = match bound.to_rfc3339() {
                    Some(t) => t,
                    None => {
                        return Err(QueryBuildError::TimeOutOfRange);
                    },
                };
                let mut p = String::from_str("time >= '");
                p.append(text.as_str());
                p.append("'");
                filters.push(p);
                proof {
                    fs = seq![Filter::TimeFrom(text@)];
                }
            },
            None => {},
        }
        assert(fs == self.time_filters());
        if self.exclude_setup_steps && applies {
            filters.push(String::from_str("group!='::setup'"));
            proof {
                fs = fs.push(Filter::ExcludeSetup);
            }
        }
        if self.exclude_teardown_steps && applies {
            filters.push(String::from_str("group!='::teardown'"));
            proof {
                fs = fs.push(Filter::ExcludeTeardown);
            }
        }
        proof {
            assert(fs =~= self.filters(applies));
            assert(string_views(filters@) =~= fs.map_values(|f: Filter| filter_text(f)));
        }
        let fields = metric.query_fields();
        let table = metric.metric_table_name();
        let mut text = String::from_str("SELECT ");
        let projection = join_strings(&fields, ", ");
        text.append(projection.as_str());
        text.append(" FROM ");
        text.append(self.database.as_str());
        text.append(".");
        text.append(self.retention_policy_name.as_str());
        text.append(".");
        text.append(table.as_str());
        if filters.len() > 0 {
            let clause = join_strings(&filters, " AND ");
            text.append(" WHERE ");
            text.append(clause.as_str());
        }
        proof {
            assert(string_views(fields@) == metric.query_fields_spec());
        }
        assert(text@ =~= self.query_for(metric));
        Ok(Query::from_text(text))
    }
}

} // verus!
