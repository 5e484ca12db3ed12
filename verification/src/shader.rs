//! The bundled Ghostty shader pack. Shaders are compiled into the library so
//! a published binary is self-contained; installing one into Ghostty's
//! configuration directory is the caller's file I/O.

use vstd::prelude::*;

verus! {

/// Names of the bundled shaders.
pub open spec fn shader_names() -> Seq<Seq<char>> {
    seq!["focus-vignette"@, "progress-pulse"@, "agent-active"@]
}

/// Whether `name` is one of the bundled shaders.
pub open spec fn is_bundled(name: Seq<char>) -> bool {
    name == "focus-vignette"@ || name == "progress-pulse"@ || name == "agent-active"@
}

/// `focus-vignette`: darkens the terminal's edges while it is unfocused.
pub const FOCUS_VIGNETTE: &'static str = "// focus-vignette: darken the edges of the terminal while the window is
// unfocused, so the focused pane stands out.
void mainImage(out vec4 fragColor, in vec2 fragCoord) {
    vec2 uv = fragCoord / iResolution.xy;
    vec4 color = texture(iChannel0, uv);
    vec2 centered = uv - 0.5;
    float vignette = smoothstep(0.8, 0.25, length(centered));
    float strength = iFocus > 0 ? 0.0 : 0.45;
    fragColor = vec4(mix(color.rgb, color.rgb * vignette, strength), color.a);
}
";

/// `progress-pulse`: a slow brightness pulse while work is running.
pub const PROGRESS_PULSE: &'static str = "// progress-pulse: a slow brightness pulse while long-running work is active.
void mainImage(out vec4 fragColor, in vec2 fragCoord) {
    vec2 uv = fragCoord / iResolution.xy;
    vec4 color = texture(iChannel0, uv);
    float pulse = 0.04 * (0.5 + 0.5 * sin(iTime * 2.0));
    fragColor = vec4(color.rgb + pulse, color.a);
}
";

/// `agent-active`: an animated accent line along the top edge.
pub const AGENT_ACTIVE: &'static str = "// agent-active: a thin animated accent line along the top edge while an
// agent is driving the terminal.
void mainImage(out vec4 fragColor, in vec2 fragCoord) {
    vec2 uv = fragCoord / iResolution.xy;
    vec4 color = texture(iChannel0, uv);
    float band = step(1.0 - 3.0 / iResolution.y, uv.y);
    float sweep = 0.5 + 0.5 * sin(uv.x * 12.0 - iTime * 3.0);
    vec3 accent = vec3(0.28, 0.73, 0.47) * sweep;
    fragColor = vec4(mix(color.rgb, accent, band), color.a);
}
";

/// The source of the bundled shader called `name`.
pub open spec fn shader_source(name: Seq<char>) -> Seq<char> {
    if name == "focus-vignette"@ {
        FOCUS_VIGNETTE@
    } else if name == "progress-pulse"@ {
        PROGRESS_PULSE@
    } else {
        AGENT_ACTIVE@
    }
}

/// The source of the bundled shader called `name`, if there is one.
pub fn bundled(name: &str) -> (r: Option<&'static str>)
    ensures
        r is Some <==> is_bundled(name@),
        r matches Some(src) ==> src@ == shader_source(name@),
{
    if crate::text::str_eq(name, "focus-vignette") {
        Some(FOCUS_VIGNETTE)
    } else if crate::text::str_eq(name, "progress-pulse") {
        Some(PROGRESS_PULSE)
    } else if crate::text::str_eq(name, "agent-active") {
        Some(AGENT_ACTIVE)
    } else {
        None
    }
}

/// Names of all bundled shaders.
pub fn list() -> (names: &'static [&'static str])
    ensures
        names@.map_values(|n: &str| n@) == shader_names(),
{
    let names: &'static [&'static str] = &["focus-vignette", "progress-pulse", "agent-active"];
    assert(names@.map_values(|n: &str| n@) =~= shader_names());
    names
}

/// The listed names are exactly the bundled shaders, each listed once.
pub proof fn list_names_the_bundled_shaders(name: Seq<char>)
    ensures
        shader_names().contains(name) <==> is_bundled(name),
        shader_names().no_duplicates(),
{
    reveal_strlit("focus-vignette");
    reveal_strlit("progress-pulse");
    reveal_strlit("agent-active");
    assert(shader_names()[0][0] == 'f' && shader_names()[1][0] == 'p' && shader_names()[2][0] == 'a');
    if is_bundled(name) {
        if name == "focus-vignette"@ {
            assert(shader_names()[0] == name);
        } else if name == "progress-pulse"@ {
            assert(shader_names()[1] == name);
        } else {
            assert(shader_names()[2] == name);
        }
    }
}

} // verus!
