//! Rendering of fetched application records into the exposed text.
//!
//! For each credential of each application the page carries three
//! lines: a `# HELP` line, a `# TYPE` line declaring a gauge, and the
//! gauge sample itself, whose value is the number of whole days the
//! credential still has to live. The exact text is pinned down by the
//! spec functions here, segment by segment, and the executable
//! functions are proved to produce it.

use vstd::prelude::*;
use vstd::string::StringExecFns;

use crate::records::Application;
use crate::records::ApplicationView;
use crate::records::Applications;
use crate::records::Credential;
use crate::records::days_remaining;
use crate::records::spec_days_remaining;
use crate::text::append_decimal;
use crate::text::sanitize_id;
use crate::text::sanitize_label;
use crate::text::spec_decimal;
use crate::text::spec_sanitize_id;
use crate::text::spec_sanitize_label;

verus! {

/// The metric name for credential number `idx` of the application with
/// (sanitized) identifier `app_id`.
pub open spec fn spec_metric_id(app_id: Seq<char>, idx: nat) -> Seq<char> {
    "application_"@ + app_id + "_"@ + spec_decimal(idx)
}

/// The `# HELP` line of one credential.
pub open spec fn spec_help_line(app_id: Seq<char>, name: Seq<char>, idx: nat) -> Seq<char> {
    "# HELP "@ + spec_metric_id(app_id, idx) + " Secret N°"@ + spec_decimal(idx)
        + " pour l'application "@ + name + "\n"@
}

/// The `# TYPE` line of one credential.
pub open spec fn spec_type_line(app_id: Seq<char>, idx: nat) -> Seq<char> {
    "# TYPE "@ + spec_metric_id(app_id, idx) + " gauge\n"@
}

/// The gauge sample of one credential: its labels and the days it has
/// left, followed by a blank separator line.
pub open spec fn spec_gauge_line(app_id: Seq<char>, name: Seq<char>, idx: nat, days: nat) -> Seq<
    char,
> {
    spec_metric_id(app_id, idx) + "{application=\""@ + name
        + "\",type=\"secret\",app=\"Azure Certificat Expiration\"} "@ + spec_decimal(days) + "\n\n"@
}

/// The three lines of one credential.
pub open spec fn spec_credential_block(
    app_id: Seq<char>,
    name: Seq<char>,
    idx: nat,
    days: nat,
) -> Seq<char> {
    spec_help_line(app_id, name, idx) + spec_type_line(app_id, idx) + spec_gauge_line(
        app_id,
        name,
        idx,
        days,
    )
}

/// The text for one list of credentials, numbered from zero in list
/// order, each valued by its remaining whole days as seen from `now`.
pub open spec fn spec_render_credentials(
    app_id: Seq<char>,
    name: Seq<char>,
    ends: Seq<int>,
    now: int,
) -> Seq<char>
    decreases ends.len(),
{
    if ends.len() == 0 {
        Seq::empty()
    } else {
        spec_render_credentials(app_id, name, ends.drop_last(), now) + spec_credential_block(
            app_id,
            name,
            (ends.len() - 1) as nat,
            spec_days_remaining(now, ends.last()) as nat,
        )
    }
}

/// The text for one application: its identifiers sanitized once, then
/// its secrets followed by its certificates.
pub open spec fn spec_render_application(app: ApplicationView, now: int) -> Seq<char> {
    let id = spec_sanitize_id(app.app_id);
    let name = spec_sanitize_label(app.display_name);
    spec_render_credentials(id, name, app.password_credentials, now) + spec_render_credentials(
        id,
        name,
        app.key_credentials,
        now,
    )
}

/// The whole page: every application's text, in fetch order.
pub open spec fn spec_render_applications(apps: Seq<ApplicationView>, now: int) -> Seq<char>
    decreases apps.len(),
{
    if apps.len() == 0 {
        Seq::empty()
    } else {
        spec_render_applications(apps.drop_last(), now) + spec_render_application(
            apps.last(),
            now,
        )
    }
}

fn append_metric_id(out: &mut String, app_id: &str, idx: u64)
    ensures
        final(out)@ == old(out)@ + spec_metric_id(app_id@, idx as nat),
{
    out.append("application_");
    out.append(app_id);
    out.append("_");
    append_decimal(out, idx);
    proof {
        assert(out@ =~= old(out)@ + spec_metric_id(app_id@, idx as nat));
    }
}

/// Appends the three lines of one credential to `out`.
pub fn render_credential(out: &mut String, app_id: &str, name: &str, idx: u64, days: u64)
    ensures
        final(out)@ == old(out)@ + spec_credential_block(
            app_id@,
            name@,
            idx as nat,
            days as nat,
        ),
{
    out.append("# HELP ");
    append_metric_id(out, app_id, idx);
    out.append(" Secret N°");
    append_decimal(out, idx);
    out.append(" pour l'application ");
    out.append(name);
    out.append("\n");
    proof {
        assert(out@ =~= old(out)@ + spec_help_line(app_id@, name@, idx as nat));
    }
    out.append("# TYPE ");
    append_metric_id(out, app_id, idx);
    out.append(" gauge\n");
    proof {
        assert(out@ =~= old(out)@ + spec_help_line(app_id@, name@, idx as nat) + spec_type_line(
            app_id@,
            idx as nat,
        ));
    }
    append_metric_id(out, app_id, idx);
    out.append("{application=\"");
    out.append(name);
    out.append("\",type=\"secret\",app=\"Azure Certificat Expiration\"} ");
    append_decimal(out, days);
    out.append("\n\n");
    proof {
        assert(out@ =~= old(out)@ + spec_credential_block(
            app_id@,
            name@,
            idx as nat,
            days as nat,
        ));
    }
}

/// Appends the text for one list of credentials to `out`; the indices
/// in the metric names follow list order.
pub fn render_credentials(
    out: &mut String,
    app_id: &str,
    name: &str,
    credentials: &Vec<Credential>,
    now: i64,
)
    ensures
        final(out)@ == old(out)@ + spec_render_credentials(
            app_id@,
            name@,
            credentials.deep_view(),
            now as int,
        ),
{
    let ghost base = old(out)@;
    let ghost ends = credentials.deep_view();
    let n = credentials.len();
    let mut i: usize = 0;
    while i < n
        invariant
            i <= n,
            n == credentials.len(),
            ends == credentials.deep_view(),
            out@ == base + spec_render_credentials(app_id@, name@, ends.take(i as int), now as int),
        decreases n - i,
    {
        let days = days_remaining(now, credentials[i].end_timestamp);
        render_credential(out, app_id, name, i as u64, days);
        proof {
            assert(ends.take(i + 1 as int).drop_last() =~= ends.take(i as int));
            assert(ends.take(i + 1 as int).last() == ends[i as int]);
            assert(ends[i as int] == credentials[i as int]@);
            assert(out@ =~= base + spec_render_credentials(
                app_id@,
                name@,
                ends.take(i + 1 as int),
                now as int,
            ));
        }
        i = i + 1;
    }
    proof {
        assert(ends.take(n as int) =~= ends);
    }
}

/// Appends the text for one application to `out`: identifiers are
/// sanitized, then its secrets and its certificates are rendered.
pub fn render_application(out: &mut String, app: &Application, now: i64)
    ensures
        final(out)@ == old(out)@ + spec_render_application(app@, now as int),
{
    let id = sanitize_id(app.app_id.as_str());
    let name = sanitize_label(app.display_name.as_str());
    render_credentials(out, id.as_str(), name.as_str(), &app.password_credentials, now);
    render_credentials(out, id.as_str(), name.as_str(), &app.key_credentials, now);
    proof {
        assert(out@ =~= old(out)@ + spec_render_application(app@, now as int));
    }
}

/// Renders the whole page for a fetch result, as seen from `now`.
pub fn render_applications(apps: &Applications, now: i64) -> (r: String)
    ensures
        r@ == spec_render_applications(apps@, now as int),
{
    let mut out = String::new();
    let ghost views = apps@;
    let n = apps.value.len();
    let mut i: usize = 0;
    while i < n
        invariant
            i <= n,
            n == apps.value.len(),
            views == apps@,
            out@ == spec_render_applications(views.take(i as int), now as int),
        decreases n - i,
    {
        render_application(&mut out, &apps.value[i], now);
        proof {
            assert(views.take(i + 1 as int).drop_last() =~= views.take(i as int));
            assert(views.take(i + 1 as int).last() == views[i as int]);
            assert(views[i as int] == apps.value[i as int]@);
            assert(out@ =~= spec_render_applications(views.take(i + 1 as int), now as int));
        }
        i = i + 1;
    }
    proof {
        assert(views.take(n as int) =~= views);
    }
    out
}

} // verus!
