//! The trusted seam to the template engine. The library serializes the
//! context itself and proves that text's shape; this module hands the text
//! and the template to handlebars, with the dynamic helper wired to the
//! library's verified helper logic, and reports the engine's outcomes as
//! plain values. Nothing is assumed of those outcomes: callers handle every
//! variant.
use vstd::prelude::*;

use handlebars::Context;
use handlebars::Handlebars;
use handlebars::Helper;
use handlebars::HelperResult;
use handlebars::Output;
use handlebars::RenderContext;
use handlebars::RenderErrorReason;

use crate::hbs_helper::HelperArg;
use crate::hbs_helper::git_log_fmt_helper;
use crate::hbs_helper::helper_name;
use crate::runner::CommandRunner;

verus! {

#[verifier::external_type_specification]
#[verifier::external_body]
pub struct ExValue(serde_json::Value);

#[verifier::external_type_specification]
#[verifier::external_body]
pub struct ExHandlebars<'reg>(Handlebars<'reg>);

/// Whether the engine's data model accepts a text, as a function of the
/// text alone: whether it parses as JSON.
pub uninterp spec fn json_data_of(s: Seq<char>) -> bool;

/// What compiling a template source yields, as a function of the source
/// alone under the engine's default settings: the engine's diagnostic when
/// the source does not compile, and nothing when it does.
pub uninterp spec fn compile_of(template_source: Seq<char>) -> Option<Seq<char>>;

/// Relies on serde_json's `from_str`: parsing is deterministic in the text,
/// and it produces the data value exactly when the text is valid JSON.
/// Nothing is stated of the value; the library only carries it to the
/// engine.
#[verifier::external_body]
pub(crate) fn parse_data_value(s: &str) -> (r: Option<serde_json::Value>)
    ensures
        r is Some <==> json_data_of(s@),
{
    serde_json::from_str::<serde_json::Value>(s).ok()
}

/// Relies on handlebars' `Handlebars::new` and `register_helper`: a fresh
/// registry whose only custom helper, under the library's helper name,
/// extracts each invocation's argument as a plain value, hands it with the
/// runner to the library's verified helper logic, writes the text it
/// returns, and otherwise fails the render with that message.
#[verifier::external_body]
pub(crate) fn engine_with_helper<'a, R: CommandRunner + Sync>(runner: &'a R) -> Handlebars<'a> {
    let mut hb = Handlebars::new();
    let helper = move |h: &Helper, _: &Handlebars, _: &Context, _: &mut RenderContext, out: &mut dyn Output| -> HelperResult {
        let arg = match h.param(0).map(|p| p.value().as_str()) {
            None => HelperArg::Missing,
            Some(None) => HelperArg::NotString,
            Some(Some(f)) => HelperArg::Format(f.to_string()),
        };
        match git_log_fmt_helper(runner, arg) {
            Ok(text) => Ok(out.write(&text)?),
            Err(m) => Err(RenderErrorReason::Other(m).into()),
        }
    };
    hb.register_helper(helper_name(), Box::new(helper));
    hb
}

/// Relies on handlebars' `register_template_string`: the template compiles
/// and is registered, or the engine's reason comes back as text. Under the
/// default registry settings this library builds, both the outcome and the
/// diagnostic depend on the source alone.
#[verifier::external_body]
pub(crate) fn engine_compile(hb: &mut Handlebars<'_>, template_source: &str) -> (r: Option<
    String,
>)
    ensures
        match r {
            Option::Some(m) => compile_of(template_source@) matches Some(d) && m@ == d,
            Option::None => compile_of(template_source@) is None,
        },
{
    hb.register_template_string("DEFAULT_TEMPLATE", template_source).err().map(|e| e.to_string())
}

/// Relies on handlebars' `render`: the registered template rendered against
/// the given data, or the engine's reason as text; helper failures surface
/// here.
#[verifier::external_body]
pub(crate) fn engine_run(hb: &Handlebars<'_>, data: &serde_json::Value) -> (r: Result<
    String,
    String,
>) {
    hb.render("DEFAULT_TEMPLATE", data).map_err(|e| e.to_string())
}

} // verus!
