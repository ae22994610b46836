//! Application configuration: environment, identity, path prefixes,
//! endpoint routes and the remote agent's address.

use vstd::prelude::*;
use vstd::string::StringExecFns;
use yaml_rust2::Yaml;

use crate::app_info::AppInfo;
use crate::document::{
    bool_or, boolean_or, child, first_document, first_document_of, items_of, opt_view, port_or,
    port_value, str_or, string_or, yaml_child, yaml_items, yaml_view, LoadError, NodeView,
};
use crate::text::{decimal, decimal_text};

verus! {

const DEFAULT_AGENT_HOST: &'static str = "localhost";

const DEFAULT_AGENT_PORT: u16 = 23332;

/// Where the remote agent listens.
#[derive(Clone, Debug)]
struct AgentConfig {
    host: String,
    port: u16,
    secure: bool,
    end_point: String,
}

/// The agent descriptor: host, port, transport security and request path.
pub struct AgentView {
    pub host: Seq<char>,
    pub port: u16,
    pub secure: bool,
    pub end_point: Seq<char>,
}

impl View for AgentConfig {
    type V = AgentView;

    closed spec fn view(&self) -> AgentView {
        AgentView {
            host: self.host@,
            port: self.port,
            secure: self.secure,
            end_point: self.end_point@,
        }
    }
}

/// The environment that `requested` selects: the requested name where the
/// document has a section of that name, else the document's `environment`
/// value, else `"dev"`.
pub open spec fn resolved_environment(doc: NodeView, requested: Option<Seq<char>>) -> Seq<char> {
    match requested {
        Some(name) => if child(doc, name) is Bad {
            str_or(child(doc, "environment"@), "dev"@)
        } else {
            name
        },
        None => str_or(child(doc, "environment"@), "dev"@),
    }
}

/// Resolves the environment whose section the configuration is read from.
pub fn resolve_environment(doc: &Yaml, requested: Option<String>) -> (r: String)
    ensures
        r@ == resolved_environment(yaml_view(*doc), opt_view(requested)),
        match requested {
            Some(name) => if child(yaml_view(*doc), name@) is Bad {
                r@ == str_or(child(yaml_view(*doc), "environment"@), "dev"@)
            } else {
                r@ == name@
            },
            None => r@ == str_or(child(yaml_view(*doc), "environment"@), "dev"@),
        },
{
    match requested {
        Some(name) => {
            let section = yaml_child(doc, name.as_str());
            if section.is_badvalue() {
                string_or(&yaml_child(doc, "environment"), "dev")
            } else {
                name
            }
        },
        None => string_or(&yaml_child(doc, "environment"), "dev"),
    }
}

/// Whether every entry of an endpoint list has a string `id`.
pub open spec fn endpoint_ids_present(entries: Seq<NodeView>) -> bool {
    forall|i: int| 0 <= i < entries.len() ==> (#[trigger] child(entries[i], "id"@)) is Str
}

/// The id of an endpoint entry.
pub open spec fn endpoint_id(entry: NodeView) -> Seq<char> {
    str_or(child(entry, "id"@), Seq::empty())
}

/// The path of an endpoint entry: its `path`, else `/{id}`.
pub open spec fn endpoint_path(entry: NodeView) -> Seq<char> {
    str_or(child(entry, "path"@), seq!['/'] + endpoint_id(entry))
}

/// The endpoint table of a list of entries; a later entry replaces an
/// earlier one with the same id.
pub open spec fn endpoint_table(entries: Seq<NodeView>) -> Map<Seq<char>, Seq<char>>
    decreases entries.len(),
{
    if entries.len() == 0 {
        Map::empty()
    } else {
        endpoint_table(entries.drop_last()).insert(
            endpoint_id(entries.last()),
            endpoint_path(entries.last()),
        )
    }
}

/// The table that a list of `(id, path)` pairs stands for; a later pair
/// replaces an earlier one with the same id.
pub open spec fn pairs_table(pairs: Seq<(String, String)>) -> Map<Seq<char>, Seq<char>>
    decreases pairs.len(),
{
    if pairs.len() == 0 {
        Map::empty()
    } else {
        pairs_table(pairs.drop_last()).insert(pairs.last().0@, pairs.last().1@)
    }
}

/// The agent descriptor that an `agent` section gives.
pub open spec fn agent_of(agent: NodeView) -> AgentView {
    AgentView {
        host: str_or(child(agent, "host"@), "localhost"@),
        port: port_value(child(agent, "port"@), 23332),
        secure: bool_or(child(agent, "secure"@), true),
        end_point: str_or(child(agent, "end_point"@), "/"@),
    }
}

/// Reads the endpoint list of an environment section into `(id, path)`
/// pairs, in document order.
fn read_end_points(section: &Yaml) -> (r: Result<Vec<(String, String)>, LoadError>)
    ensures
        match r {
            Ok(pairs) => endpoint_ids_present(items_of(child(yaml_view(*section), "end_points"@)))
                && pairs_table(pairs@) == endpoint_table(
                items_of(child(yaml_view(*section), "end_points"@)),
            ),
            Err(e) => e == LoadError::MissingEndpointId && !endpoint_ids_present(
                items_of(child(yaml_view(*section), "end_points"@)),
            ),
        },
{
    let list = yaml_child(section, "end_points");
    let entries = yaml_items(&list);
    let ghost views = items_of(yaml_view(list));
    let mut pairs: Vec<(String, String)> = Vec::new();
    let mut i: usize = 0;
    while i < entries.len()
        invariant
            i <= entries@.len(),
            views == items_of(child(yaml_view(*section), "end_points"@)),
            entries@.len() == views.len(),
            forall|k: int| 0 <= k < entries@.len() ==> yaml_view(#[trigger] entries@[k]) == views[k],
            forall|k: int| 0 <= k < i ==> (#[trigger] child(views[k], "id"@)) is Str,
            pairs_table(pairs@) == endpoint_table(views.take(i as int)),
        decreases entries@.len() - i,
    {
        let entry = &entries[i];
        let id_node = yaml_child(entry, "id");
        match id_node.as_str() {
            None => {
                assert(!endpoint_ids_present(views)) by {
                    assert(!(child(views[i as int], "id"@) is Str));
                }
                return Err(LoadError::MissingEndpointId);
            },
            Some(id) => {
                let default_path = "/".to_owned().concat(id);
                proof {
                    reveal_strlit("/");
                }
                let path = string_or(&yaml_child(entry, "path"), default_path.as_str());
                let ghost before = pairs@;
                pairs.push((id.to_owned(), path));
                assert(pairs@.drop_last() =~= before);
                assert(views.take(i + 1).drop_last() =~= views.take(i as int));
                assert(views.take(i + 1).last() == views[i as int]);
                assert(endpoint_id(views[i as int]) == id@);
                assert(endpoint_path(views[i as int]) == path@);
            },
        }
        i += 1;
    }
    assert(views.take(i as int) =~= views);
    Ok(pairs)
}

/// Application configuration resolved from one document.
#[derive(Clone, Debug)]
pub struct AppConfig {
    name: String,
    version: String,
    environment: String,
    agent: AgentConfig,
    files_app_dir: String,
    app_path: String,
    api_path: String,
    end_points: Vec<(String, String)>,
}

/// The resolved application configuration; the endpoint table maps each id
/// to its path.
pub struct AppConfigView {
    pub name: Seq<char>,
    pub version: Seq<char>,
    pub environment: Seq<char>,
    pub agent: AgentView,
    pub files_app_dir: Seq<char>,
    pub app_path: Seq<char>,
    pub api_path: Seq<char>,
    pub end_points: Map<Seq<char>, Seq<char>>,
}

impl View for AppConfig {
    type V = AppConfigView;

    closed spec fn view(&self) -> AppConfigView {
        AppConfigView {
            name: self.name@,
            version: self.version@,
            environment: self.environment@,
            agent: self.agent@,
            files_app_dir: self.files_app_dir@,
            app_path: self.app_path@,
            api_path: self.api_path@,
            end_points: pairs_table(self.end_points@),
        }
    }
}

/// The configuration that `doc` gives for the environment `requested`
/// selects. The document's top-level `app_name` and `version` override the
/// build metadata `package_name` and `version`.
pub open spec fn app_config_of(
    doc: NodeView,
    requested: Option<Seq<char>>,
    package_name: Seq<char>,
    version: Seq<char>,
) -> AppConfigView {
    let environment = resolved_environment(doc, requested);
    let section = child(doc, environment);
    AppConfigView {
        name: str_or(child(doc, "app_name"@), package_name),
        version: str_or(child(doc, "version"@), version),
        environment,
        agent: agent_of(child(section, "agent"@)),
        files_app_dir: str_or(child(section, "files_app_dir"@), "site"@),
        app_path: str_or(child(section, "app_path"@), "/app"@),
        api_path: str_or(child(section, "api_path"@), "/api"@),
        end_points: endpoint_table(items_of(child(section, "end_points"@))),
    }
}

/// `app_config_of`, where every endpoint entry of the selected section has
/// an id.
pub open spec fn app_config_result(
    doc: NodeView,
    requested: Option<Seq<char>>,
    package_name: Seq<char>,
    version: Seq<char>,
) -> Result<AppConfigView, LoadError> {
    let section = child(doc, resolved_environment(doc, requested));
    if endpoint_ids_present(items_of(child(section, "end_points"@))) {
        Ok(app_config_of(doc, requested, package_name, version))
    } else {
        Err(LoadError::MissingEndpointId)
    }
}

/// The configuration that the first document of `text` gives.
pub open spec fn app_config_from_text(
    text: Seq<char>,
    requested: Option<Seq<char>>,
    package_name: Seq<char>,
    version: Seq<char>,
) -> Result<AppConfigView, LoadError> {
    match first_document_of(text) {
        Ok(doc) => app_config_result(doc, requested, package_name, version),
        Err(e) => Err(e),
    }
}

/// The view of a construction's outcome.
pub open spec fn app_config_view(r: Result<AppConfig, LoadError>) -> Result<AppConfigView, LoadError> {
    match r {
        Ok(c) => Ok(c@),
        Err(e) => Err(e),
    }
}

/// The URL of the agent: `{scheme}://{host}:{port}{end_point}`, where the
/// scheme is `https` for a secure agent and `http` otherwise.
pub open spec fn agent_url(agent: AgentView) -> Seq<char> {
    (if agent.secure {
        "https"@
    } else {
        "http"@
    }) + "://"@ + agent.host + ":"@ + decimal(agent.port as nat) + agent.end_point
}

/// The path of an endpoint: its entry in the table, else `/{id}`.
pub open spec fn end_point_of(table: Map<Seq<char>, Seq<char>>, id: Seq<char>) -> Seq<char> {
    if table.contains_key(id) {
        table[id]
    } else {
        seq!['/'] + id
    }
}

/// Pairs after index `j` that do not bear `key` leave its entry as the
/// first `j` pairs have it.
proof fn lemma_pairs_table_prefix(pairs: Seq<(String, String)>, j: int, key: Seq<char>)
    requires
        0 <= j <= pairs.len(),
        forall|k: int| j <= k < pairs.len() ==> (#[trigger] pairs[k]).0@ != key,
    ensures
        pairs_table(pairs).contains_key(key) == pairs_table(pairs.take(j)).contains_key(key),
        pairs_table(pairs).contains_key(key) ==> pairs_table(pairs)[key] == pairs_table(
            pairs.take(j),
        )[key],
    decreases pairs.len(),
{
    if j == pairs.len() {
        assert(pairs.take(j) =~= pairs);
    } else {
        let init = pairs.drop_last();
        assert(init.take(j) =~= pairs.take(j));
        assert forall|k: int| j <= k < init.len() implies (#[trigger] init[k]).0@ != key by {
            assert(init[k] == pairs[k]);
        }
        assert(pairs.last() == pairs[pairs.len() - 1]);
        lemma_pairs_table_prefix(init, j, key);
    }
}

/// Loading the configuration from a text and loading it from that text's
/// first document (as a file loader hands it over) give the same result,
/// field for field.
pub proof fn lemma_text_and_document_agree(
    text: Seq<char>,
    doc: NodeView,
    requested: Option<Seq<char>>,
    package_name: Seq<char>,
    version: Seq<char>,
)
    requires
        first_document_of(text) == Ok::<NodeView, LoadError>(doc),
    ensures
        app_config_from_text(text, requested, package_name, version) == app_config_result(
            doc,
            requested,
            package_name,
            version,
        ),
{
}

impl AppConfig {
    /// Builds the configuration from a parsed document. The environment is
    /// resolved from `running_environment`; each field falls back to its
    /// default where the document lacks it. An endpoint entry without a
    /// string id is the one fatal flaw of a document: it gives
    /// `Err(MissingEndpointId)` and no configuration.
    pub fn from_yaml(running_environment: Option<String>, app_info: &AppInfo, doc: &Yaml) -> (r:
        Result<Self, LoadError>)
        ensures
            app_config_view(r) == app_config_result(
                yaml_view(*doc),
                opt_view(running_environment),
                app_info.package_name@,
                app_info.version@,
            ),
    {
        let ghost requested = opt_view(running_environment);
        let app_environment = resolve_environment(doc, running_environment);
        let section = yaml_child(doc, app_environment.as_str());
        let end_points = match read_end_points(&section) {
            Ok(pairs) => pairs,
            Err(e) => {
                return Err(e);
            },
        };
        let agent_node = yaml_child(&section, "agent");
        let agent = AgentConfig {
            host: string_or(&yaml_child(&agent_node, "host"), DEFAULT_AGENT_HOST),
            port: port_or(&yaml_child(&agent_node, "port"), DEFAULT_AGENT_PORT),
            secure: boolean_or(&yaml_child(&agent_node, "secure"), true),
            end_point: string_or(&yaml_child(&agent_node, "end_point"), "/"),
        };
        let name = string_or(&yaml_child(doc, "app_name"), app_info.package_name);
        let config = AppConfig {
            name,
            version: string_or(&yaml_child(doc, "version"), app_info.version),
            environment: app_environment,
            agent,
            files_app_dir: string_or(&yaml_child(&section, "files_app_dir"), "site"),
            app_path: string_or(&yaml_child(&section, "app_path"), "/app"),
            api_path: string_or(&yaml_child(&section, "api_path"), "/api"),
            end_points,
        };
        assert(config@ == app_config_of(
            yaml_view(*doc),
            requested,
            app_info.package_name@,
            app_info.version@,
        ));
        Ok(config)
    }

    /// Builds the configuration from the first document of `config_text`.
    pub fn new(running_environment: Option<String>, app_info: &AppInfo, config_text: &str) -> (r:
        Result<Self, LoadError>)
        ensures
            app_config_view(r) == app_config_from_text(
                config_text@,
                opt_view(running_environment),
                app_info.package_name@,
                app_info.version@,
            ),
    {
        match first_document(config_text) {
            Ok(doc) => Self::from_yaml(running_environment, app_info, &doc),
            Err(e) => Err(e),
        }
    }

    pub fn get_environment(&self) -> (r: String)
        ensures
            r@ == self@.environment,
    {
        self.environment.clone()
    }

    pub fn get_file_app_dir(&self) -> (r: String)
        ensures
            r@ == self@.files_app_dir,
    {
        self.files_app_dir.clone()
    }

    pub fn get_app_path(&self) -> (r: String)
        ensures
            r@ == self@.app_path,
    {
        self.app_path.clone()
    }

    pub fn get_api_path(&self) -> (r: String)
        ensures
            r@ == self@.api_path,
    {
        self.api_path.clone()
    }

    /// The path of the endpoint `end_point_name`, or `/{end_point_name}`
    /// where the table has no such endpoint.
    pub fn get_end_point(&self, end_point_name: &str) -> (r: String)
        ensures
            r@ == end_point_of(self@.end_points, end_point_name@),
            !self@.end_points.contains_key(end_point_name@) ==> r@ == seq!['/'] + end_point_name@,
    {
        let key = end_point_name.to_owned();
        let mut i: usize = self.end_points.len();
        while i > 0
            invariant
                i <= self.end_points@.len(),
                key@ == end_point_name@,
                forall|k: int| i <= k < self.end_points@.len() ==> (#[trigger] self.end_points@[k]).0@
                    != key@,
            decreases i,
        {
            if self.end_points[i - 1].0 == key {
                proof {
                    let pairs = self.end_points@;
                    lemma_pairs_table_prefix(pairs, i as int, key@);
                    assert(pairs.take(i as int).drop_last() =~= pairs.take(i - 1));
                    assert(pairs.take(i as int).last() == pairs[i - 1]);
                }
                return self.end_points[i - 1].1.clone();
            }
            i -= 1;
        }
        proof {
            lemma_pairs_table_prefix(self.end_points@, 0, key@);
            assert(self.end_points@.take(0) =~= Seq::<(String, String)>::empty());
            reveal_strlit("/");
        }
        "/".to_owned().concat(end_point_name)
    }

    pub fn get_app_name(&self) -> (r: &String)
        ensures
            r@ == self@.name,
    {
        &self.name
    }

    pub fn get_version(&self) -> (r: &String)
        ensures
            r@ == self@.version,
    {
        &self.version
    }

    /// The agent's URL, `{scheme}://{host}:{port}{end_point}`.
    pub fn get_agent_url(&self) -> (r: String)
        ensures
            r@ == agent_url(self@.agent),
    {
        let http = if self.agent.secure {
            "https"
        } else {
            "http"
        };
        let port = decimal_text(self.agent.port);
        let url = http.to_owned().concat("://").concat(self.agent.host.as_str()).concat(
            ":",
        ).concat(port.as_str()).concat(self.agent.end_point.as_str());
        proof {
            let a = self@.agent;
            assert(url@ =~= agent_url(a));
        }
        url
    }
}

} // verus!
