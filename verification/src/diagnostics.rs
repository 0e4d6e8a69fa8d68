//! Reports of the self-tests: what each probe of the machine found, in
//! words, line by line.
//!
//! The embedding program runs the probes; the functions here turn their
//! results into the report.

use crate::bindings::ForeignHandle;
use crate::content::{Content, ContentManager, ShareableContent, display_count};
use crate::error::{CaptureError, ErrorStatus};
use crate::stream::RealContentFilter;
use crate::surface::{Surface, displays_view, sources_of, sources_view};
use crate::text::{append_decimal, decimal, numbered};
use vstd::pervasive::unreached;
use vstd::prelude::*;
use vstd::string::*;

verus! {

/// Most displays that a report describes one by one.
pub const DESCRIBED_DISPLAYS: usize = 3;

/// Lines joined by line feeds.
pub open spec fn joined(lines: Seq<Seq<char>>) -> Seq<char>
    decreases lines.len(),
{
    if lines.len() == 0 {
        Seq::empty()
    } else if lines.len() == 1 {
        lines[0]
    } else {
        joined(lines.drop_last()) + "\n"@ + lines.last()
    }
}

/// Views of a list of lines, in order.
pub open spec fn lines_view(lines: Seq<String>) -> Seq<Seq<char>> {
    lines.map_values(|line: String| line@)
}

/// View of a probe's result: the error by its characters.
pub open spec fn probe_view<V>(result: Result<V, String>) -> Result<V, Seq<char>> {
    match result {
        Ok(value) => Ok(value),
        Err(description) => Err(description@),
    }
}

/// View of a probe's textual result.
pub open spec fn text_probe_view(result: Result<String, String>) -> Result<Seq<char>, Seq<char>> {
    match result {
        Ok(value) => Ok(value@),
        Err(description) => Err(description@),
    }
}

/// The lines that close the report on permissions.
pub open spec fn with_bridge_features(lines: Seq<Seq<char>>) -> Seq<Seq<char>> {
    lines.push(""@).push("🚀 Async Implementation Features:"@).push(
        "  • get_available_screens_with_timeout() - Proper async content retrieval with timeout"@,
    ).push("  • Tokio-based async/await support"@).push(
        "  • Safe completion handler bridging"@,
    ).push("  • Cached content for sync fallback"@).push("  • Timeout protection (5s)"@)
}

/// The report on permissions and access, line by line. An unsupported
/// system ends it after the second line. On a supported system follow
/// the state of the permission, what the direct content request said, and
/// the list of features.
pub open spec fn permissions_lines(
    version: Result<Seq<char>, Seq<char>>,
    permitted: bool,
    direct_request: Result<ForeignHandle, Seq<char>>,
) -> Seq<Seq<char>> {
    let title = seq!["=== ScreenCaptureKit Async Implementation Test ==="@];
    match version {
        Err(failure) => title.push("❌ macOS Version Check Failed: "@ + failure),
        Ok(found) => {
            let versioned = title.push(
                "✅ macOS Version: "@ + found + " (ScreenCaptureKit compatible)"@,
            );
            let permission = if permitted {
                versioned.push("✅ Screen Recording Permission: Granted"@)
            } else {
                versioned.push("⚠️ Screen Recording Permission: Not Granted"@).push(
                    "💡 Please enable screen recording permission in System Preferences"@,
                )
            };
            let access = match direct_request {
                Ok(_) => permission.push("✅ ScreenCaptureKit API: Accessible (sync)"@),
                Err(refusal) => permission.push(
                    "⚠️ ScreenCaptureKit Sync API: "@ + refusal
                        + " (expected for async-first implementation)"@,
                ).push("💡 Use async version for full functionality"@),
            };
            with_bridge_features(access)
        },
    }
}

/// The line that describes the display at position `index`.
pub open spec fn display_line(index: nat, display: Surface) -> Seq<char> {
    "    Display "@ + decimal(index + 1) + ": "@ + display.label + " ("@ + decimal(
        display.width as nat,
    ) + "x"@ + decimal(display.height as nat) + ")"@
}

/// `lines` followed by the lines for the first `count` displays.
pub open spec fn with_displays(lines: Seq<Seq<char>>, displays: Seq<Surface>, count: nat) -> Seq<
    Seq<char>,
>
    decreases count,
{
    if count == 0 {
        lines
    } else {
        with_displays(lines, displays, (count - 1) as nat).push(
            display_line((count - 1) as nat, displays[count - 1]),
        )
    }
}

/// `lines` followed by what a content request brought: how many displays
/// and windows, the first three displays one by one, and how many sources
/// are offered, displays and windows apart.
pub open spec fn with_content(lines: Seq<Seq<char>>, content: Content) -> Seq<Seq<char>> {
    let sources = sources_of(content.displays, content.windows);
    let displays = display_count(sources, sources.len());
    let described = if content.displays.len() < DESCRIBED_DISPLAYS {
        content.displays.len()
    } else {
        DESCRIBED_DISPLAYS as nat
    };
    with_displays(
        lines.push("✅ Timeout Content Retrieval: Success"@).push(
            "  📺 Displays found: "@ + decimal(content.displays.len()),
        ).push("  🪟 Windows found: "@ + decimal(content.windows.len())),
        content.displays,
        described,
    ).push("✅ Screen Sources Extracted: "@ + decimal(sources.len()) + " total"@).push(
        "  📺 Display sources: "@ + decimal(displays),
    ).push("  🪟 Window sources: "@ + decimal((sources.len() - displays) as nat))
}

/// What the probes of the timeout-guarded content request found.
#[derive(Debug)]
pub enum TimeoutProbe {
    /// Screen recording is not permitted; nothing was requested.
    NotPermitted,
    /// Screen recording is permitted.
    Probed {
        /// What the content request brought, or its failure in words.
        content: Result<ShareableContent, String>,
        /// How many sources a fresh recorder listed, or its failure in
        /// words.
        recorder: Result<usize, String>,
    },
}

/// A probe as the contracts see it.
pub enum Probe {
    NotPermitted,
    Probed { content: Result<Content, Seq<char>>, recorder: Result<usize, Seq<char>> },
}

impl View for TimeoutProbe {
    type V = Probe;

    open spec fn view(&self) -> Probe {
        match *self {
            TimeoutProbe::NotPermitted => Probe::NotPermitted,
            TimeoutProbe::Probed { content, recorder } => Probe::Probed {
                content: match content {
                    Ok(brought) => Ok(brought@),
                    Err(failure) => Err(failure@),
                },
                recorder: probe_view(recorder),
            },
        }
    }
}

/// The report on the timeout-guarded content request, line by line.
/// Without the permission it ends after the third line.
pub open spec fn timeout_lines(probe: Probe) -> Seq<Seq<char>> {
    let title = seq!["=== ScreenCaptureKit Timeout Implementation Test ==="@];
    match probe {
        Probe::NotPermitted => title.push("❌ Screen Recording Permission: Not Granted"@).push(
            "Please enable screen recording permission and try again"@,
        ),
        Probe::Probed { content, recorder } => {
            let permitted = title.push("✅ Screen Recording Permission: Granted"@);
            let requested = match content {
                Ok(brought) => with_content(permitted, brought),
                Err(failure) => permitted.push("❌ Timeout Content Retrieval Failed: "@ + failure),
            };
            let listed = match recorder {
                Ok(count) => requested.push(
                    "✅ Recorder Timeout Method: Found "@ + decimal(count as nat) + " sources"@,
                ),
                Err(failure) => requested.push("❌ Recorder Timeout Method Failed: "@ + failure),
            };
            listed.push(""@).push(
                "🎉 Timeout-based ScreenCaptureKit implementation is working!"@,
            ).push(
                "💡 This approach avoids the segfault by using timeout-protected completion handlers"@,
            )
        },
    }
}

fn join_lines(lines: &Vec<String>) -> (text: String)
    ensures
        text@ == joined(lines_view(lines@)),
{
    let mut text = String::new();
    let ghost all = lines_view(lines@);
    let mut i: usize = 0;
    proof {
        assert(all.take(0) =~= Seq::<Seq<char>>::empty());
    }
    while i < lines.len()
        invariant
            i <= lines.len(),
            all == lines_view(lines@),
            text@ == joined(all.take(i as int)),
        decreases lines.len() - i,
    {
        proof {
            assert(all.take(i + 1).drop_last() =~= all.take(i as int));
            assert(all.take(i + 1).last() == lines@[i as int]@);
        }
        if i > 0 {
            text.append("\n");
        } else {
            proof {
                assert(Seq::<char>::empty() + lines@[i as int]@ =~= lines@[i as int]@);
            }
        }
        text.append(lines[i].as_str());
        i = i + 1;
    }
    proof {
        assert(all.take(i as int) =~= all);
    }
    text
}

fn put_line(lines: &mut Vec<String>, line: String)
    ensures
        lines_view(final(lines)@) == lines_view(old(lines)@).push(line@),
{
    lines.push(line);
    proof {
        assert(lines_view(lines@) =~= lines_view(old(lines)@).push(line@));
    }
}

fn put_literal(lines: &mut Vec<String>, line: &str)
    ensures
        lines_view(final(lines)@) == lines_view(old(lines)@).push(line@),
{
    put_line(lines, line.to_owned());
}

fn put_bridge_features(lines: &mut Vec<String>)
    ensures
        lines_view(final(lines)@) == with_bridge_features(lines_view(old(lines)@)),
{
    put_literal(lines, "");
    put_literal(lines, "🚀 Async Implementation Features:");
    put_literal(
        lines,
        "  • get_available_screens_with_timeout() - Proper async content retrieval with timeout",
    );
    put_literal(lines, "  • Tokio-based async/await support");
    put_literal(lines, "  • Safe completion handler bridging");
    put_literal(lines, "  • Cached content for sync fallback");
    put_literal(lines, "  • Timeout protection (5s)");
}

fn put_content(lines: &mut Vec<String>, content: &ShareableContent)
    ensures
        lines_view(final(lines)@) == with_content(lines_view(old(lines)@), content@),
{
    let displays = content.get_displays();
    let windows = content.get_windows();
    let sources = ContentManager::extract_screen_sources(content);
    let display_sources = ContentManager::count_display_sources(&sources);
    proof {
        assert(displays_view(displays@).len() == displays.len());
        assert(crate::surface::windows_view(windows@).len() == windows.len());
        assert(sources_view(sources@).len() == sources.len());
        lemma_display_count_is_bounded(sources_view(sources@), sources.len() as nat);
    }
    put_literal(lines, "✅ Timeout Content Retrieval: Success");
    put_line(lines, numbered("  📺 Displays found: ", displays.len() as u64));
    put_line(lines, numbered("  🪟 Windows found: ", windows.len() as u64));
    let described = if displays.len() < DESCRIBED_DISPLAYS {
        displays.len()
    } else {
        DESCRIBED_DISPLAYS
    };
    let ghost start = lines_view(lines@);
    let mut i: usize = 0;
    while i < described
        invariant
            i <= described <= displays.len(),
            displays_view(displays@) == content@.displays,
            lines_view(lines@) == with_displays(start, content@.displays, i as nat),
        decreases described - i,
    {
        let display = &displays[i];
        let mut line = numbered("    Display ", i as u64 + 1);
        line.append(": ");
        line.append(display.name.as_str());
        line.append(" (");
        append_decimal(&mut line, display.width as u64);
        line.append("x");
        append_decimal(&mut line, display.height as u64);
        line.append(")");
        proof {
            assert(displays@[i as int]@ == content@.displays[i as int]);
        }
        put_line(lines, line);
        i = i + 1;
    }
    let mut total = numbered("✅ Screen Sources Extracted: ", sources.len() as u64);
    total.append(" total");
    put_line(lines, total);
    put_line(lines, numbered("  📺 Display sources: ", display_sources as u64));
    put_line(lines, numbered("  🪟 Window sources: ", (sources.len() - display_sources) as u64));
}

/// No more displays are counted than there are sources.
proof fn lemma_display_count_is_bounded(sources: Seq<crate::surface::Source>, upto: nat)
    ensures
        display_count(sources, upto) <= upto,
    decreases upto,
{
    if upto > 0 {
        lemma_display_count_is_bounded(sources, (upto - 1) as nat);
    }
}

/// The report on permissions and access.
///
/// `version` is the supported system version or why the system is not
/// supported; `permitted` says whether screen recording is permitted;
/// `direct_request` is what the direct content request answered. An
/// unsupported system ends the report at once, and the other two results
/// are not looked at.
pub fn test_permissions_and_api(
    version: Result<String, String>,
    permitted: bool,
    direct_request: Result<ForeignHandle, String>,
) -> (report: String)
    ensures
        report@ == joined(
            permissions_lines(text_probe_view(version), permitted, probe_view(direct_request)),
        ),
{
    let mut lines: Vec<String> = Vec::new();
    proof {
        assert(lines_view(lines@) =~= Seq::<Seq<char>>::empty());
        assert(Seq::<Seq<char>>::empty().push(
            "=== ScreenCaptureKit Async Implementation Test ==="@,
        ) =~= seq!["=== ScreenCaptureKit Async Implementation Test ==="@]);
    }
    put_literal(&mut lines, "=== ScreenCaptureKit Async Implementation Test ===");
    match version {
        Err(failure) => {
            put_line(
                &mut lines,
                "❌ macOS Version Check Failed: ".to_owned().concat(failure.as_str()),
            );
            return join_lines(&lines);
        },
        Ok(found) => {
            let mut line = "✅ macOS Version: ".to_owned().concat(found.as_str());
            line.append(" (ScreenCaptureKit compatible)");
            put_line(&mut lines, line);
        },
    }
    if permitted {
        put_literal(&mut lines, "✅ Screen Recording Permission: Granted");
    } else {
        put_literal(&mut lines, "⚠️ Screen Recording Permission: Not Granted");
        put_literal(
            &mut lines,
            "💡 Please enable screen recording permission in System Preferences",
        );
    }
    match direct_request {
        Ok(_) => {
            put_literal(&mut lines, "✅ ScreenCaptureKit API: Accessible (sync)");
        },
        Err(refusal) => {
            let mut line = "⚠️ ScreenCaptureKit Sync API: ".to_owned().concat(refusal.as_str());
            line.append(" (expected for async-first implementation)");
            put_line(&mut lines, line);
            put_literal(&mut lines, "💡 Use async version for full functionality");
        },
    }
    put_bridge_features(&mut lines);
    join_lines(&lines)
}

/// The report on the timeout-guarded content request.
pub fn test_screencapturekit_with_timeout(probe: TimeoutProbe) -> (report: String)
    ensures
        report@ == joined(timeout_lines(probe@)),
{
    let mut lines: Vec<String> = Vec::new();
    proof {
        assert(lines_view(lines@) =~= Seq::<Seq<char>>::empty());
        assert(Seq::<Seq<char>>::empty().push(
            "=== ScreenCaptureKit Timeout Implementation Test ==="@,
        ) =~= seq!["=== ScreenCaptureKit Timeout Implementation Test ==="@]);
    }
    put_literal(&mut lines, "=== ScreenCaptureKit Timeout Implementation Test ===");
    match probe {
        TimeoutProbe::NotPermitted => {
            put_literal(&mut lines, "❌ Screen Recording Permission: Not Granted");
            put_literal(&mut lines, "Please enable screen recording permission and try again");
        },
        TimeoutProbe::Probed { content, recorder } => {
            put_literal(&mut lines, "✅ Screen Recording Permission: Granted");
            match content {
                Ok(brought) => {
                    put_content(&mut lines, &brought);
                },
                Err(failure) => {
                    put_line(
                        &mut lines,
                        "❌ Timeout Content Retrieval Failed: ".to_owned().concat(failure.as_str()),
                    );
                },
            }
            match recorder {
                Ok(count) => {
                    let mut line = numbered("✅ Recorder Timeout Method: Found ", count as u64);
                    line.append(" sources");
                    put_line(&mut lines, line);
                },
                Err(failure) => {
                    put_line(
                        &mut lines,
                        "❌ Recorder Timeout Method Failed: ".to_owned().concat(failure.as_str()),
                    );
                },
            }
            put_literal(&mut lines, "");
            put_literal(&mut lines, "🎉 Timeout-based ScreenCaptureKit implementation is working!");
            put_literal(
                &mut lines,
                "💡 This approach avoids the segfault by using timeout-protected completion handlers",
            );
        },
    }
    join_lines(&lines)
}

/// The self-test of the stream layer. It lists the sources of the
/// content and then asks for a filter on display 1, which cannot be made:
/// the test always ends with that failure.
pub fn test_phase2_implementation(content: &ShareableContent) -> (report: Result<
    String,
    CaptureError,
>)
    ensures
        report matches Err(error) && error.says(
            ErrorStatus::InvalidArg,
            "Display with ID "@ + decimal(1) + " not found"@,
        ),
{
    let _sources = ContentManager::extract_screen_sources(content);
    match RealContentFilter::new_with_display(content, 1) {
        Ok(_) => unreached(),
        Err(error) => Err(error),
    }
}

} // verus!
