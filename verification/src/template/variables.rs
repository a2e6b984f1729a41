//! The variables that a template can refer to, and how they are built from
//! the configuration of a project.

use crate::config::QuickstartConfig;
use crate::ProjectType;
use vstd::prelude::*;

verus! {

/// A point in time as the system clock reports it.
#[verifier::external_type_specification]
#[verifier::external_body]
pub struct ExSystemTime(std::time::SystemTime);

/// `SystemTime::now` reads the system clock.
pub assume_specification[ std::time::SystemTime::now ]() -> (now: std::time::SystemTime)
;

/// `Duration::as_secs` gives the whole seconds of a duration.
pub assume_specification[ std::time::Duration::as_secs ](span: &std::time::Duration) -> (secs: u64)
;

/// Calls `SystemTime::duration_since` with the Unix epoch, which gives the
/// time elapsed since then, or none where the clock stands before it.
#[verifier::external_body]
fn since_epoch(now: &std::time::SystemTime) -> (elapsed: Option<std::time::Duration>) {
    now.duration_since(std::time::UNIX_EPOCH).ok()
}

/// Calls `chrono::DateTime::from_timestamp`, which gives the point in time
/// that many seconds after the epoch, or none where the calendar does not
/// reach that far, and `DateTime::with_timezone` with `chrono::Local`, which
/// reads the time zone of the machine. Hands back the year of the local date
/// and the date written after the pattern for year, month and day. The clock
/// is not read, and nothing is said of the date: it depends on the time zone.
#[verifier::external_body]
fn local_date(seconds: i64, pattern: &str) -> (date: Option<(i32, String)>)
    requires
        pattern@ == "%Y-%m-%d"@,
{
    match chrono::DateTime::from_timestamp(seconds, 0) {
        Some(utc) => {
            let local = utc.with_timezone(&chrono::Local);
            Some((chrono::Datelike::year(&local), local.format(pattern).to_string()))
        },
        None => None,
    }
}

/// Variables available for template substitution.
#[derive(Debug, Clone)]
pub struct TemplateVariables {
    /// Project name.
    pub name: String,
    /// Project description (optional).
    pub description: Option<String>,
    /// Project version.
    pub version: String,
    /// Rust edition.
    pub edition: String,
    /// Author information.
    pub author: Author,
    /// License type.
    pub license: String,
    /// Project type flags.
    pub project: ProjectFlags,
    /// Git configuration.
    pub git: GitConfig,
    /// Date and timestamp information.
    pub date: DateInfo,
    /// Template variant flags.
    pub template: TemplateFlags,
}

/// Information about the project author.
#[derive(Debug, Clone)]
pub struct Author {
    /// Author name.
    pub name: String,
    /// Author email (optional).
    pub email: Option<String>,
}

/// Project type flags for conditional template sections.
#[derive(Debug, Clone, Copy, PartialEq, Eq, Structural)]
pub struct ProjectFlags {
    /// Whether the project is a binary application.
    pub is_binary: bool,
    /// Whether the project is a library crate.
    pub is_library: bool,
}

/// Git configuration flags.
#[derive(Debug, Clone, Copy, PartialEq, Eq, Structural)]
pub struct GitConfig {
    /// Whether to initialize a Git repository.
    pub initialize: bool,
    /// Whether to create an initial commit.
    pub create_commit: bool,
}

/// Date and timestamp information.
#[derive(Debug, Clone)]
pub struct DateInfo {
    /// Current year (YYYY).
    pub year: u32,
    /// Current date in ISO format (YYYY-MM-DD).
    pub iso_date: String,
    /// Unix timestamp.
    pub timestamp: u64,
}

/// Template variant flags.
#[derive(Debug, Clone, Copy, PartialEq, Eq, Structural)]
pub struct TemplateFlags {
    /// Whether to use minimal templates.
    pub is_minimal: bool,
    /// Whether to use extended templates.
    pub is_extended: bool,
}

/// The value of one variable.
#[derive(Debug, Clone, PartialEq, Eq)]
pub enum VariableValue {
    /// A text.
    Text(String),
    /// A flag.
    Flag(bool),
    /// A number.
    Number(u64),
}

/// One member of the variable tree as templates see it: a variable, or a
/// named group of variables.
#[derive(Debug, Clone, PartialEq, Eq)]
pub enum VariableNode {
    /// A variable.
    Leaf {
        /// The name of the variable.
        key: &'static str,
        /// The value of the variable.
        value: VariableValue,
    },
    /// A group of variables, which templates reach as `group.variable`.
    Group {
        /// The name of the group.
        key: &'static str,
        /// The variables of the group, each with its name.
        fields: Vec<(&'static str, VariableValue)>,
    },
}

/// The value of a variable as contracts speak of it.
#[verifier::ext_equal]
pub ghost enum ValueModel {
    /// A text.
    Text(Seq<char>),
    /// A flag.
    Flag(bool),
    /// A number.
    Number(u64),
}

/// A member of the variable tree as contracts speak of it.
#[verifier::ext_equal]
pub ghost enum NodeModel {
    /// A variable.
    Leaf {
        /// The name of the variable.
        key: Seq<char>,
        /// The value of the variable.
        value: ValueModel,
    },
    /// A group of variables.
    Group {
        /// The name of the group.
        key: Seq<char>,
        /// The variables of the group, each with its name.
        fields: Seq<(Seq<char>, ValueModel)>,
    },
}

impl VariableValue {
    /// The value as contracts speak of it.
    pub open spec fn model(self) -> ValueModel {
        match self {
            VariableValue::Text(text) => ValueModel::Text(text@),
            VariableValue::Flag(flag) => ValueModel::Flag(flag),
            VariableValue::Number(number) => ValueModel::Number(number),
        }
    }
}

/// The variables of a group as contracts speak of them.
pub open spec fn field_models(fields: Seq<(&'static str, VariableValue)>) -> Seq<
    (Seq<char>, ValueModel),
> {
    Seq::new(fields.len(), |i: int| (fields[i].0@, fields[i].1.model()))
}

impl VariableNode {
    /// The node as contracts speak of it.
    pub open spec fn model(self) -> NodeModel {
        match self {
            VariableNode::Leaf { key, value } => NodeModel::Leaf { key: key@, value: value.model() },
            VariableNode::Group { key, fields } => NodeModel::Group {
                key: key@,
                fields: field_models(fields@),
            },
        }
    }
}

/// The nodes of a tree as contracts speak of them.
pub open spec fn node_models(nodes: Seq<VariableNode>) -> Seq<NodeModel> {
    Seq::new(nodes.len(), |i: int| nodes[i].model())
}

/// A member of the data that templates are rendered against: a value, or an
/// object with members of its own.
#[verifier::ext_equal]
pub ghost enum DataModel {
    /// A value.
    Value(ValueModel),
    /// An object, by the names of its members.
    Object(Map<Seq<char>, ValueModel>),
}

/// The variables of a group by their names. Of two variables with one name
/// the later one counts.
pub open spec fn field_map(fields: Seq<(Seq<char>, ValueModel)>) -> Map<Seq<char>, ValueModel>
    decreases fields.len(),
{
    if fields.len() == 0 {
        Map::empty()
    } else {
        field_map(fields.drop_last()).insert(fields.last().0, fields.last().1)
    }
}

/// The members of a tree by their names: what the data for the renderer
/// holds, which keeps neither the order of the nodes nor two nodes of one
/// name.
pub open spec fn node_map(nodes: Seq<NodeModel>) -> Map<Seq<char>, DataModel>
    decreases nodes.len(),
{
    if nodes.len() == 0 {
        Map::empty()
    } else {
        let rest = node_map(nodes.drop_last());
        match nodes.last() {
            NodeModel::Leaf { key, value } => rest.insert(key, DataModel::Value(value)),
            NodeModel::Group { key, fields } => rest.insert(
                key,
                DataModel::Object(field_map(fields)),
            ),
        }
    }
}

/// A text variable.
pub open spec fn text_leaf(key: Seq<char>, text: Seq<char>) -> NodeModel {
    NodeModel::Leaf { key, value: ValueModel::Text(text) }
}

/// A flag of a group.
pub open spec fn flag_field(key: Seq<char>, flag: bool) -> (Seq<char>, ValueModel) {
    (key, ValueModel::Flag(flag))
}

impl DateInfo {
    /// Whether this is the date for a reading of the calendar and of the
    /// clock: it has the year of the reading, cut to the range of its type,
    /// the written date and the seconds since the epoch.
    pub open spec fn is_reading(self, year: i32, iso_date: String, seconds: u64) -> bool {
        &&& self.year == year as u32
        &&& self.iso_date == iso_date
        &&& self.timestamp == seconds
    }

    /// Whether this is the date of the Unix epoch, with the timestamp zero.
    pub open spec fn is_epoch(self) -> bool {
        &&& self.year == 1970
        &&& self.iso_date@ == "1970-01-01"@
        &&& self.timestamp == 0
    }

    /// The date for a reading of the calendar and of the clock.
    pub fn of_reading(year: i32, iso_date: String, seconds: u64) -> (date: Self)
        ensures
            date.is_reading(year, iso_date, seconds),
    {
        DateInfo { year: #[verifier::truncate] (year as u32), iso_date, timestamp: seconds }
    }

    /// The date of the Unix epoch, with the timestamp zero.
    pub fn epoch() -> (date: Self)
        ensures
            date.is_epoch(),
    {
        DateInfo { year: 1970, iso_date: "1970-01-01".to_owned(), timestamp: 0 }
    }

    /// The current date. The clock is read once, and the local calendar gives
    /// the year and the written date for the seconds since the epoch that it
    /// shows. Where the clock stands before the epoch, or the calendar has no
    /// date for its reading, the date is that of the epoch. Nothing is promised
    /// of the values: they are what the clock and the time zone of the machine
    /// make them.
    pub fn now() -> (date: Self) {
        let now = std::time::SystemTime::now();
        match since_epoch(&now) {
            Some(elapsed) => {
                let seconds = elapsed.as_secs();
                if seconds > 0x7fff_ffff_ffff_ffff {
                    return DateInfo::epoch();
                }
                match local_date(seconds as i64, "%Y-%m-%d") {
                    Some((year, iso_date)) => DateInfo::of_reading(year, iso_date, seconds),
                    None => DateInfo::epoch(),
                }
            },
            None => DateInfo::epoch(),
        }
    }
}

impl ProjectFlags {
    /// The flags of a project type: exactly one of them is set.
    pub open spec fn of(project_type: ProjectType) -> ProjectFlags {
        ProjectFlags {
            is_binary: project_type == ProjectType::Binary,
            is_library: project_type == ProjectType::Library,
        }
    }
}

impl TemplateVariables {
    /// Whether these are the variables of `config` on the date `date`.
    ///
    /// Name, edition and license are those of the configuration and both git
    /// flags are its git setting. There is no description, the version is
    /// `0.1.0` and the author is a stand-in. The variant flags always say
    /// extended: the variant that a configuration asks for is not consulted.
    pub open spec fn built_from(self, config: QuickstartConfig, date: DateInfo) -> bool {
        &&& self.name == config.name
        &&& self.description is None
        &&& self.version@ == "0.1.0"@
        &&& self.edition == config.edition
        &&& self.author.name@ == "Your Name"@
        &&& self.author.email matches Some(email) && email@ == "your.email@example.com"@
        &&& self.license == config.license
        &&& self.project == ProjectFlags::of(config.project_type)
        &&& self.git == (GitConfig { initialize: config.git, create_commit: config.git })
        &&& self.date == date
        &&& self.template == (TemplateFlags { is_minimal: false, is_extended: true })
    }

    /// Whether the flags are consistent: exactly one project flag and exactly
    /// one variant flag is set.
    pub open spec fn one_hot(self) -> bool {
        &&& self.project.is_binary != self.project.is_library
        &&& self.template.is_minimal != self.template.is_extended
    }

    /// Builds the variables of `config` on a given date.
    pub fn from_config_on(config: &QuickstartConfig, date: DateInfo) -> (vars: Self)
        ensures
            vars.built_from(*config, date),
            vars.one_hot(),
    {
        let is_binary = match config.project_type {
            ProjectType::Binary => true,
            ProjectType::Library => false,
        };
        let is_extended = true;
        TemplateVariables {
            name: config.name.clone(),
            description: None,
            version: "0.1.0".to_owned(),
            edition: config.edition.clone(),
            author: Author {
                name: "Your Name".to_owned(),
                email: Some("your.email@example.com".to_owned()),
            },
            license: config.license.clone(),
            project: ProjectFlags { is_binary, is_library: !is_binary },
            git: GitConfig { initialize: config.git, create_commit: config.git },
            date,
            template: TemplateFlags { is_minimal: !is_extended, is_extended },
        }
    }

    /// Builds the variables of `config` on the current date.
    pub fn from_config(config: &QuickstartConfig) -> (vars: Self)
        ensures
            vars.built_from(*config, vars.date),
            vars.one_hot(),
    {
        TemplateVariables::from_config_on(config, DateInfo::now())
    }

    /// The variables of the author: the name, and the email where there is one.
    pub open spec fn author_fields(self) -> Seq<(Seq<char>, ValueModel)> {
        seq![("name"@, ValueModel::Text(self.author.name@))] + match self.author.email {
            Some(email) => seq![("email"@, ValueModel::Text(email@))],
            None => Seq::empty(),
        }
    }

    /// The variable tree as templates see it, under the names that templates
    /// are written against. A description or an email that is absent has no
    /// member at all.
    pub open spec fn tree(self) -> Seq<NodeModel> {
        seq![text_leaf("name"@, self.name@)] + match self.description {
            Some(text) => seq![text_leaf("description"@, text@)],
            None => Seq::empty(),
        } + seq![
            text_leaf("version"@, self.version@),
            text_leaf("edition"@, self.edition@),
            NodeModel::Group { key: "author"@, fields: self.author_fields() },
            text_leaf("license"@, self.license@),
            NodeModel::Group {
                key: "project"@,
                fields: seq![
                    flag_field("is_binary"@, self.project.is_binary),
                    flag_field("is_library"@, self.project.is_library),
                ],
            },
            NodeModel::Group {
                key: "git"@,
                fields: seq![
                    flag_field("initialize"@, self.git.initialize),
                    flag_field("create_commit"@, self.git.create_commit),
                ],
            },
            NodeModel::Group {
                key: "date"@,
                fields: seq![
                    ("year"@, ValueModel::Number(self.date.year as u64)),
                    ("iso_date"@, ValueModel::Text(self.date.iso_date@)),
                    ("timestamp"@, ValueModel::Number(self.date.timestamp)),
                ],
            },
            NodeModel::Group {
                key: "template"@,
                fields: seq![
                    flag_field("is_minimal"@, self.template.is_minimal),
                    flag_field("is_extended"@, self.template.is_extended),
                ],
            },
        ]
    }

    /// The data that templates are rendered against: the members of the
    /// tree by their names.
    pub open spec fn data(self) -> Map<Seq<char>, DataModel> {
        node_map(self.tree())
    }

    /// Lays the variables out as the tree that templates see.
    pub fn to_nodes(&self) -> (nodes: Vec<VariableNode>)
        ensures
            node_models(nodes@) == self.tree(),
    {
        let mut nodes: Vec<VariableNode> = Vec::new();
        nodes.push(VariableNode::Leaf { key: "name", value: VariableValue::Text(self.name.clone()) });
        match &self.description {
            Some(text) => {
                nodes.push(
                    VariableNode::Leaf { key: "description", value: VariableValue::Text(text.clone()) },
                );
            },
            None => {},
        }
        nodes.push(
            VariableNode::Leaf { key: "version", value: VariableValue::Text(self.version.clone()) },
        );
        nodes.push(
            VariableNode::Leaf { key: "edition", value: VariableValue::Text(self.edition.clone()) },
        );
        let mut author: Vec<(&'static str, VariableValue)> = Vec::new();
        author.push(("name", VariableValue::Text(self.author.name.clone())));
        match &self.author.email {
            Some(email) => {
                author.push(("email", VariableValue::Text(email.clone())));
            },
            None => {},
        }
        assert(field_models(author@) =~= self.author_fields());
        nodes.push(VariableNode::Group { key: "author", fields: author });
        nodes.push(
            VariableNode::Leaf { key: "license", value: VariableValue::Text(self.license.clone()) },
        );
        let mut project: Vec<(&'static str, VariableValue)> = Vec::new();
        project.push(("is_binary", VariableValue::Flag(self.project.is_binary)));
        project.push(("is_library", VariableValue::Flag(self.project.is_library)));
        assert(field_models(project@) =~= seq![
            flag_field("is_binary"@, self.project.is_binary),
            flag_field("is_library"@, self.project.is_library),
        ]);
        nodes.push(VariableNode::Group { key: "project", fields: project });
        let mut git: Vec<(&'static str, VariableValue)> = Vec::new();
        git.push(("initialize", VariableValue::Flag(self.git.initialize)));
        git.push(("create_commit", VariableValue::Flag(self.git.create_commit)));
        assert(field_models(git@) =~= seq![
            flag_field("initialize"@, self.git.initialize),
            flag_field("create_commit"@, self.git.create_commit),
        ]);
        nodes.push(VariableNode::Group { key: "git", fields: git });
        let mut date: Vec<(&'static str, VariableValue)> = Vec::new();
        date.push(("year", VariableValue::Number(self.date.year as u64)));
        date.push(("iso_date", VariableValue::Text(self.date.iso_date.clone())));
        date.push(("timestamp", VariableValue::Number(self.date.timestamp)));
        assert(field_models(date@) =~= seq![
            ("year"@, ValueModel::Number(self.date.year as u64)),
            ("iso_date"@, ValueModel::Text(self.date.iso_date@)),
            ("timestamp"@, ValueModel::Number(self.date.timestamp)),
        ]);
        nodes.push(VariableNode::Group { key: "date", fields: date });
        let mut template: Vec<(&'static str, VariableValue)> = Vec::new();
        template.push(("is_minimal", VariableValue::Flag(self.template.is_minimal)));
        template.push(("is_extended", VariableValue::Flag(self.template.is_extended)));
        assert(field_models(template@) =~= seq![
            flag_field("is_minimal"@, self.template.is_minimal),
            flag_field("is_extended"@, self.template.is_extended),
        ]);
        nodes.push(VariableNode::Group { key: "template", fields: template });
        assert(node_models(nodes@) =~= self.tree());
        nodes
    }

    /// Variables with fixed values, for trying out templates.
    pub fn default_test_variables() -> (vars: Self)
        ensures
            vars.name@ == "test-project"@,
            vars.description matches Some(text) && text@ == "A test project"@,
            vars.version@ == "0.1.0"@,
            vars.edition@ == "2021"@,
            vars.author.name@ == "Test Author"@,
            vars.author.email matches Some(email) && email@ == "test@example.com"@,
            vars.license@ == "MIT"@,
            vars.project == ProjectFlags::of(ProjectType::Binary),
            vars.git == (GitConfig { initialize: true, create_commit: true }),
            vars.date.timestamp == 1619712000,
            vars.template == (TemplateFlags { is_minimal: false, is_extended: true }),
            vars.one_hot(),
    {
        let today = DateInfo::now();
        TemplateVariables {
            name: "test-project".to_owned(),
            description: Some("A test project".to_owned()),
            version: "0.1.0".to_owned(),
            edition: "2021".to_owned(),
            author: Author {
                name: "Test Author".to_owned(),
                email: Some("test@example.com".to_owned()),
            },
            license: "MIT".to_owned(),
            project: ProjectFlags { is_binary: true, is_library: false },
            git: GitConfig { initialize: true, create_commit: true },
            date: DateInfo { year: today.year, iso_date: today.iso_date, timestamp: 1619712000 },
            template: TemplateFlags { is_minimal: false, is_extended: true },
        }
    }
}

} // verus!
