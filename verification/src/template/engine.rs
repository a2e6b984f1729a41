//! Rendering of templates against the variables of a project.
//!
//! The renderer is the `handlebars` registry, set to strict mode, so that a
//! template that refers to a variable that does not exist fails to render, and
//! extended by the four text-case helpers.

use crate::template::variables::{
    node_map, node_models, DataModel, TemplateVariables, VariableNode, VariableValue,
};
use crate::template::TemplateError;
use crate::tools::helpers::{
    HelperError, HelperParam, KebabCaseHelper, LowercaseHelper, SnakeCaseHelper, TemplateHelper,
    UppercaseHelper,
};
use handlebars::{
    Context, Handlebars, Helper, HelperResult, JsonValue, Output, RenderContext, RenderError,
    RenderErrorReason,
};
use vstd::prelude::*;

verus! {

/// The renderer's registry of templates and helpers.
#[verifier::external_type_specification]
#[verifier::external_body]
pub struct ExHandlebars<'reg>(handlebars::Handlebars<'reg>);

/// The data that the renderer reads variables from.
#[verifier::external_type_specification]
#[verifier::external_body]
pub struct ExJsonValue(handlebars::JsonValue);

/// The names for which a registry has a template to render: the names under
/// which templates were registered with it.
pub uninterp spec fn template_names(registry: handlebars::Handlebars<'static>) -> Set<Seq<char>>;

/// The names under which a registry holds helpers.
pub uninterp spec fn helper_names(registry: handlebars::Handlebars<'static>) -> Set<Seq<char>>;

/// Whether a registry is in strict mode, in which rendering a value that does
/// not exist is an error.
pub uninterp spec fn strict_mode(registry: handlebars::Handlebars<'static>) -> bool;

/// What a value of the renderer's data holds: the members of the object by
/// their names.
pub uninterp spec fn json_members(data: handlebars::JsonValue) -> Map<Seq<char>, DataModel>;

/// Whether a text parses as a template.
pub uninterp spec fn template_parses(content: Seq<char>) -> bool;

/// What rendering a template body with a registry against data gives: the
/// rendered text, or nothing where the rendering fails.
pub uninterp spec fn render_outcome(
    registry: handlebars::Handlebars<'static>,
    content: Seq<char>,
    data: Map<Seq<char>, DataModel>,
) -> Option<Seq<char>>;

/// What rendering the template that a registry holds under a name against
/// data gives: the rendered text, or nothing where the rendering fails.
pub uninterp spec fn registered_outcome(
    registry: handlebars::Handlebars<'static>,
    name: Seq<char>,
    data: Map<Seq<char>, DataModel>,
) -> Option<Seq<char>>;

/// Calls `Handlebars::new`, which gives a registry with the built-in helpers
/// and no templates.
#[verifier::external_body]
fn new_registry() -> (registry: Handlebars<'static>)
    ensures
        template_names(registry) == Set::<Seq<char>>::empty(),
        !strict_mode(registry),
{
    Handlebars::new()
}

/// Calls `Handlebars::set_strict_mode`, which switches strict mode on or off
/// and leaves templates and helpers alone.
#[verifier::external_body]
fn set_strict_mode(registry: &mut Handlebars<'static>, enabled: bool)
    ensures
        strict_mode(*final(registry)) == enabled,
        template_names(*final(registry)) == template_names(*old(registry)),
        helper_names(*final(registry)) == helper_names(*old(registry)),
{
    registry.set_strict_mode(enabled)
}

/// One call of a helper in a template, with its parameters.
#[verifier::external_type_specification]
#[verifier::external_body]
pub struct ExHelper<'rc>(handlebars::Helper<'rc>);

/// Reads the parameters of a call with `Helper::params`: a parameter whose
/// value is a string becomes a text, any other becomes `Other`.
#[verifier::external_body]
fn call_params(call: &Helper<'_>) -> (params: Vec<HelperParam>) {
    call.params().iter().map(|p| match p.value().as_str() {
        Some(text) => HelperParam::Text(text.to_owned()),
        None => HelperParam::Other,
    }).collect()
}

/// Makes the renderer's error for a failure of a helper, with
/// `RenderError::from`: a missing parameter keeps the helper's name and the
/// parameter's index.
#[verifier::external_body]
fn helper_failure(failure: HelperError) -> (error: RenderError) {
    match failure {
        HelperError::ParamNotFound { helper, index } => {
            RenderErrorReason::ParamNotFoundForIndex(helper, index).into()
        },
        HelperError::LowercaseConversionError => {
            RenderErrorReason::Other(format!("{failure:?}")).into()
        },
    }
}

/// Calls `Handlebars::register_helper` with a function that hands the
/// parameters of a call to `helper` and writes out the text that it returns,
/// or fails as the helper does. The registry then holds a helper under
/// `name`; templates and strict mode are left alone.
#[verifier::external_body]
fn register_helper<H: TemplateHelper + Send + Sync + 'static>(
    registry: &mut Handlebars<'static>,
    name: &str,
    helper: H,
)
    ensures
        helper_names(*final(registry)) == helper_names(*old(registry)).insert(name@),
        template_names(*final(registry)) == template_names(*old(registry)),
        strict_mode(*final(registry)) == strict_mode(*old(registry)),
{
    registry.register_helper(
        name,
        Box::new(
            move |call: &Helper<'_>, _: &Handlebars<'_>, _: &Context,
                  _: &mut RenderContext<'_, '_>, out: &mut dyn Output| -> HelperResult {
                match helper.apply(&call_params(call)) {
                    Ok(text) => Ok(out.write(&text)?),
                    Err(failure) => Err(helper_failure(failure)),
                }
            },
        ),
    )
}

/// Calls `Handlebars::register_template_string`, which parses the template and
/// keeps it under the name, or reports the syntax error and keeps nothing.
/// Whether the template parses depends on its text alone.
#[verifier::external_body]
fn register_template_string(
    registry: &mut Handlebars<'static>,
    name: &str,
    content: &str,
) -> (outcome: Result<(), RenderError>)
    ensures
        outcome is Ok <==> template_parses(content@),
        template_names(*final(registry)) == if outcome is Ok {
            template_names(*old(registry)).insert(name@)
        } else {
            template_names(*old(registry))
        },
        helper_names(*final(registry)) == helper_names(*old(registry)),
        strict_mode(*final(registry)) == strict_mode(*old(registry)),
{
    registry.register_template_string(name, content).map_err(|e| e.into())
}

/// Calls `Handlebars::render`, which renders the template registered under
/// the name against the data, and fails where there is no template under the
/// name. What it gives depends on the registry, the name and the data alone.
#[verifier::external_body]
fn render_registered(
    registry: &Handlebars<'static>,
    name: &str,
    data: &JsonValue,
) -> (outcome: Result<String, RenderError>)
    ensures
        !template_names(*registry).contains(name@) ==> outcome is Err,
        match outcome {
            Ok(text) => registered_outcome(*registry, name@, json_members(*data)) == Some(text@),
            Err(_) => registered_outcome(*registry, name@, json_members(*data)) is None,
        },
{
    registry.render(name, data)
}

/// Calls `Handlebars::render_template`, which parses the template and renders
/// it against the data. What it gives depends on the registry, the template
/// and the data alone.
#[verifier::external_body]
fn render_string(
    registry: &Handlebars<'static>,
    content: &str,
    data: &JsonValue,
) -> (outcome: Result<String, RenderError>)
    ensures
        match outcome {
            Ok(text) => render_outcome(*registry, content@, json_members(*data)) == Some(text@),
            Err(_) => render_outcome(*registry, content@, json_members(*data)) is None,
        },
{
    registry.render_template(content, data)
}

/// Builds the renderer's data from the variable nodes: an object with one
/// member for each node, a group being an object of its own. The object
/// holds the members by their names.
#[verifier::external_body]
fn json_of(nodes: &Vec<VariableNode>) -> (data: JsonValue)
    ensures
        json_members(data) == node_map(node_models(nodes@)),
{
    let value = |v: &VariableValue| match v {
        VariableValue::Text(text) => JsonValue::from(text.as_str()),
        VariableValue::Flag(flag) => JsonValue::from(*flag),
        VariableValue::Number(number) => JsonValue::from(*number),
    };
    JsonValue::Object(nodes.iter().map(|node| match node {
        VariableNode::Leaf { key, value: v } => (key.to_string(), value(v)),
        VariableNode::Group { key, fields } => {
            let members = fields.iter().map(|(k, v)| (k.to_string(), value(v))).collect();
            (key.to_string(), JsonValue::Object(members))
        },
    }).collect())
}

/// The name under which a template body that is rendered directly appears in
/// errors.
pub open spec fn direct_name() -> Seq<char> {
    "string_template"@
}

/// What a rendering gives for the outcome of the renderer: the text, or a
/// render error that carries the name of the template and the failure.
pub open spec fn rendering(
    name: Seq<char>,
    outcome: Result<String, RenderError>,
    result: Result<String, TemplateError>,
) -> bool {
    match outcome {
        Ok(text) => result == Ok::<String, TemplateError>(text),
        Err(cause) => result matches Err(TemplateError::RenderError { name: n, source }) && n@
            == name && source == cause,
    }
}

/// Turns the outcome of the renderer into the result of a rendering of the
/// template called `name`.
pub fn rendered(name: &str, outcome: Result<String, RenderError>) -> (result: Result<
    String,
    TemplateError,
>)
    ensures
        rendering(name@, outcome, result),
{
    match outcome {
        Ok(text) => Ok(text),
        Err(source) => Err(TemplateError::RenderError { name: name.to_owned(), source }),
    }
}

/// Template engine for rendering project templates.
pub struct TemplateEngine {
    /// The renderer's registry.
    handlebars: Handlebars<'static>,
    /// Template variables.
    variables: TemplateVariables,
}

impl TemplateEngine {
    /// The variables that templates are rendered against.
    pub closed spec fn vars(&self) -> TemplateVariables {
        self.variables
    }

    /// The names under which templates are registered.
    pub closed spec fn registered(&self) -> Set<Seq<char>> {
        template_names(self.handlebars)
    }

    /// The names under which the renderer holds helpers.
    pub closed spec fn helpers(&self) -> Set<Seq<char>> {
        helper_names(self.handlebars)
    }

    /// Whether the renderer is in strict mode.
    pub closed spec fn strict(&self) -> bool {
        strict_mode(self.handlebars)
    }

    /// What rendering a template body gives: the rendered text, or nothing
    /// where the rendering fails.
    pub closed spec fn renders(&self, content: Seq<char>) -> Option<Seq<char>> {
        render_outcome(self.handlebars, content, self.variables.data())
    }

    /// What rendering the template registered under a name gives: the
    /// rendered text, or nothing where the rendering fails.
    pub closed spec fn renders_registered(&self, name: Seq<char>) -> Option<Seq<char>> {
        registered_outcome(self.handlebars, name, self.variables.data())
    }

    /// Whether the engine is set up as every engine is: in strict mode, and
    /// with the four text-case helpers under their names.
    pub open spec fn configured(&self) -> bool {
        &&& self.strict()
        &&& self.helpers().contains("lowercase"@)
        &&& self.helpers().contains("uppercase"@)
        &&& self.helpers().contains("snake_case"@)
        &&& self.helpers().contains("kebab_case"@)
    }

    /// Creates an engine that renders against `variables`, in strict mode and
    /// with the helpers `lowercase`, `uppercase`, `snake_case` and
    /// `kebab_case`.
    pub fn new(variables: TemplateVariables) -> (engine: Self)
        ensures
            engine.vars() == variables,
            engine.registered() == Set::<Seq<char>>::empty(),
            engine.configured(),
    {
        let mut handlebars = new_registry();
        set_strict_mode(&mut handlebars, true);
        register_helper(&mut handlebars, LowercaseHelper.name(), LowercaseHelper);
        register_helper(&mut handlebars, UppercaseHelper.name(), UppercaseHelper);
        register_helper(&mut handlebars, SnakeCaseHelper.name(), SnakeCaseHelper);
        register_helper(&mut handlebars, KebabCaseHelper.name(), KebabCaseHelper);
        TemplateEngine { handlebars, variables }
    }

    /// Registers a template under a name, if it parses. A template that
    /// does not parse is not registered, and is reported as a render error
    /// with that name.
    pub fn register_template(&mut self, name: &str, content: &str) -> (result: Result<
        (),
        TemplateError,
    >)
        ensures
            result is Ok <==> template_parses(content@),
            final(self).vars() == old(self).vars(),
            final(self).configured() == old(self).configured(),
            match result {
                Ok(()) => final(self).registered() == old(self).registered().insert(name@),
                Err(e) => final(self).registered() == old(self).registered() && (
                e matches TemplateError::RenderError { name: n, .. } && n@ == name@),
            },
    {
        match register_template_string(&mut self.handlebars, name, content) {
            Ok(()) => Ok(()),
            Err(source) => Err(TemplateError::RenderError { name: name.to_owned(), source }),
        }
    }

    /// Renders the template registered under `template_name` with the stored
    /// variables. The result is the rendered text; a failure, such as a name
    /// that was never registered, is reported as a render error with that
    /// name.
    pub fn render(&self, template_name: &str) -> (result: Result<String, TemplateError>)
        ensures
            !self.registered().contains(template_name@) ==> result is Err,
            match self.renders_registered(template_name@) {
                Some(text) => result matches Ok(rendered) && rendered@ == text,
                None => result matches Err(TemplateError::RenderError { name, .. }) && name@
                    == template_name@,
            },
    {
        let data = json_of(&self.variables.to_nodes());
        rendered(template_name, render_registered(&self.handlebars, template_name, &data))
    }

    /// Renders a template body with the stored variables. The result is the
    /// rendered text; a syntax error, a variable that does not exist and a
    /// failing helper are reported as a render error with the name
    /// `string_template`.
    pub fn render_template(&self, template_content: &str) -> (result: Result<String, TemplateError>)
        ensures
            match self.renders(template_content@) {
                Some(text) => result matches Ok(rendered) && rendered@ == text,
                None => result matches Err(TemplateError::RenderError { name, .. }) && name@
                    == direct_name(),
            },
    {
        let data = json_of(&self.variables.to_nodes());
        rendered("string_template", render_string(&self.handlebars, template_content, &data))
    }

    /// The stored variables.
    pub fn variables(&self) -> (vars: &TemplateVariables)
        ensures
            *vars == self.vars(),
    {
        &self.variables
    }

    /// The stored variables, for changing them in place.
    pub fn variables_mut(&mut self) -> (vars: &mut TemplateVariables)
        ensures
            *vars == old(self).vars(),
            final(self).vars() == *final(vars),
            final(self).registered() == old(self).registered(),
            final(self).configured() == old(self).configured(),
    {
        &mut self.variables
    }
}

} // verus!
