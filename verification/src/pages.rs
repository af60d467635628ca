//! The landing page.

use crate::config::AppConfig;
use crate::text::concat3;
use vstd::prelude::*;

verus! {

/// The landing page up to the hint on authorization.
pub const PAGE_HEAD: &'static str = r#"<!doctype html>
<html lang="en">
  <head>
    <meta charset="utf-8" />
    <meta name="viewport" content="width=device-width, initial-scale=1" />
    <title>Codex OpenAI Wrapper</title>
    <style>
      :root {
        --bg: #f4efe2;
        --panel: #fffaf0;
        --ink: #1f241f;
        --muted: #5a6258;
        --accent: #0c6c56;
        --border: #d8ceb7;
      }
      * { box-sizing: border-box; }
      body {
        margin: 0;
        font-family: Georgia, "Iowan Old Style", "Palatino Linotype", serif;
        color: var(--ink);
        background:
          radial-gradient(circle at top left, rgba(12,108,86,0.14), transparent 28%),
          radial-gradient(circle at top right, rgba(170,102,67,0.14), transparent 24%),
          linear-gradient(180deg, #fbf6ea, #efe5d4);
      }
      .wrap { max-width: 1080px; margin: 0 auto; padding: 32px 20px 60px; }
      .hero, .card {
        border: 1px solid var(--border);
        background: rgba(255,250,240,0.9);
        box-shadow: 0 12px 42px rgba(31,36,31,0.08);
      }
      .hero { padding: 28px; display: grid; gap: 12px; }
      .badge { display: inline-block; padding: 6px 10px; border: 1px solid var(--border); background: #fff; font-size: 0.82rem; text-transform: uppercase; }
      h1 { margin: 0; font-size: clamp(2rem, 4vw, 4rem); line-height: 0.96; }
      p { margin: 0; line-height: 1.5; color: var(--muted); }
      .grid { display: grid; grid-template-columns: repeat(auto-fit, minmax(280px, 1fr)); gap: 18px; margin-top: 20px; }
      .card { padding: 20px; }
      .card h2 { margin: 0 0 10px; font-size: 1.15rem; }
      .mono { font-family: "Cascadia Code", Consolas, monospace; white-space: pre-wrap; word-break: break-word; font-size: 0.92rem; }
      .row { display: grid; grid-template-columns: 1fr 1fr; gap: 12px; }
      label { display: block; margin: 0 0 6px; font-weight: 600; }
      input, textarea {
        width: 100%;
        border: 1px solid var(--border);
        background: #fff;
        padding: 10px 12px;
        font: inherit;
      }
      textarea { min-height: 140px; resize: vertical; }
      .actions { display: flex; gap: 10px; flex-wrap: wrap; margin-top: 14px; }
      button { border: 1px solid var(--ink); background: var(--ink); color: #fff; padding: 10px 14px; font: inherit; cursor: pointer; }
      button.secondary { background: transparent; color: var(--ink); }
      .output { margin-top: 12px; padding: 12px; border: 1px dashed var(--border); background: #fff; min-height: 110px; }
      @media (max-width: 720px) { .row { grid-template-columns: 1fr; } }
    </style>
  </head>
  <body>
    <div class="wrap">
      <section class="hero">
        <span class="badge">Rust MVP • Codex-backed</span>
        <h1>Codex OpenAI Wrapper</h1>
        <p>An OpenAI-compatible HTTP facade for Codex. Existing OpenAI client libraries can point at this server instead of <code>api.openai.com</code>.</p>
        <p><strong>Auth:</strong> "#;

/// The landing page from the hint to the model in the example.
pub const PAGE_AFTER_HINT: &'static str = r#"</p>
      </section>
      <section class="grid">
        <div class="card"><h2>Service</h2><div class="mono" id="health">Loading...</div></div>
        <div class="card"><h2>Auth Status</h2><div class="mono" id="auth">Loading...</div></div>
        <div class="card"><h2>Models</h2><div class="mono" id="models">Loading...</div></div>
      </section>
      <section class="grid">
        <div class="card">
          <h2>Quick Start</h2>
          <div class="mono">from openai import OpenAI

client = OpenAI(
    base_url="http://127.0.0.1:8000/v1",
    api_key="anything-unless-wrapper-api-key-is-configured",
)

resp = client.chat.completions.create(
    model=""#;

/// The landing page from the example to the model field of the form.
pub const PAGE_BETWEEN_MODELS: &'static str = r#"",
    messages=[{"role": "user", "content": "Reply with hello"}],
)</div>
        </div>
        <div class="card">
          <h2>API Explorer</h2>
          <label for="apiKey">Authorization Bearer Token</label>
          <input id="apiKey" placeholder="Only needed if WRAPPER_API_KEY is configured" />
          <div class="row" style="margin-top: 12px;">
            <div><label for="model">Model</label><input id="model" value=""#;

/// The landing page after the model field.
pub const PAGE_TAIL: &'static str = r#"" /></div>
            <div><label for="sessionId">Session ID</label><input id="sessionId" placeholder="optional-session-id" /></div>
          </div>
          <label for="prompt" style="margin-top: 12px;">Prompt</label>
          <textarea id="prompt">Explain what this wrapper does in one paragraph.</textarea>
          <div class="actions">
            <button id="run">Send Request</button>
            <button class="secondary" id="stream">Stream Request</button>
          </div>
          <div class="output mono" id="result"></div>
        </div>
      </section>
    </div>
    <script>
      const byId = (id) => document.getElementById(id);
      async function fetchJson(path) {
        const token = byId("apiKey").value.trim();
        const headers = token ? { Authorization: `Bearer ${token}` } : {};
        const resp = await fetch(path, { headers });
        return await resp.json();
      }
      async function loadPanels() {
        byId("health").textContent = JSON.stringify(await fetchJson("/health"), null, 2);
        byId("auth").textContent = JSON.stringify(await fetchJson("/v1/auth/status"), null, 2);
        byId("models").textContent = JSON.stringify(await fetchJson("/v1/models"), null, 2);
      }
      async function runChat(stream) {
        const token = byId("apiKey").value.trim();
        const headers = { "Content-Type": "application/json" };
        if (token) headers["Authorization"] = `Bearer ${token}`;
        const body = {
          model: byId("model").value.trim(),
          messages: [{ role: "user", content: byId("prompt").value }],
          stream,
          session_id: byId("sessionId").value.trim() || null
        };
        const result = byId("result");
        result.textContent = stream ? "" : "Sending...";
        const resp = await fetch("/v1/chat/completions", { method: "POST", headers, body: JSON.stringify(body) });
        if (!stream) {
          result.textContent = JSON.stringify(await resp.json(), null, 2);
          return;
        }
        const reader = resp.body.getReader();
        const decoder = new TextDecoder();
        let buffer = "";
        while (true) {
          const { value, done } = await reader.read();
          if (done) break;
          buffer += decoder.decode(value, { stream: true });
          let boundary = buffer.indexOf("\\n\\n");
          while (boundary !== -1) {
            const chunk = buffer.slice(0, boundary);
            buffer = buffer.slice(boundary + 2);
            boundary = buffer.indexOf("\\n\\n");
            if (!chunk.startsWith("data: ")) continue;
            const payload = chunk.slice(6).trim();
            if (payload === "[DONE]") continue;
            const json = JSON.parse(payload);
            const delta = json.choices?.[0]?.delta?.content;
            if (delta) result.textContent += delta;
          }
        }
      }
      byId("run").addEventListener("click", () => runChat(false));
      byId("stream").addEventListener("click", () => runChat(true));
      loadPanels().catch((error) => { byId("health").textContent = String(error); });
    </script>
  </body>
</html>"#;

/// What the page says about authorization.
pub open spec fn auth_hint(key_configured: bool) -> Seq<char> {
    if key_configured {
        "This server requires the configured wrapper API key in the Authorization header."@
    } else {
        "This server accepts any Bearer token by default so OpenAI client libraries can connect without extra setup."@
    }
}

/// The landing page for a service with this default model.
pub open spec fn page_text(hint: Seq<char>, default_model: Seq<char>) -> Seq<char> {
    PAGE_HEAD@ + hint + PAGE_AFTER_HINT@ + default_model + PAGE_BETWEEN_MODELS@ + default_model
        + PAGE_TAIL@
}

/// The landing page.
pub fn index(config: &AppConfig) -> (page: String)
    ensures
        page@ == page_text(auth_hint(config.wrapper_api_key is Some), config.default_model@),
{
    let hint = if config.wrapper_api_key.is_some() {
        "This server requires the configured wrapper API key in the Authorization header."
    } else {
        "This server accepts any Bearer token by default so OpenAI client libraries can connect without extra setup."
    };
    let mut page = concat3(PAGE_HEAD, hint, PAGE_AFTER_HINT);
    page.append(config.default_model.as_str());
    page.append(PAGE_BETWEEN_MODELS);
    page.append(config.default_model.as_str());
    page.append(PAGE_TAIL);
    page
}

/// The landing page shows the default model twice, once in the example and once in the form, and
/// the hint before both.
pub proof fn law_page_shows_hint_and_model(hint: Seq<char>, model: Seq<char>) -> (parts: (
    Seq<char>,
    Seq<char>,
    Seq<char>,
    Seq<char>,
))
    ensures
        page_text(hint, model) == parts.0 + hint + parts.1 + model + parts.2 + model + parts.3,
        parts == (PAGE_HEAD@, PAGE_AFTER_HINT@, PAGE_BETWEEN_MODELS@, PAGE_TAIL@),
{
    (PAGE_HEAD@, PAGE_AFTER_HINT@, PAGE_BETWEEN_MODELS@, PAGE_TAIL@)
}

/// The page says that a key is needed exactly where one is configured.
pub proof fn law_page_says_whether_a_key_is_needed()
    ensures
        auth_hint(true)
            == "This server requires the configured wrapper API key in the Authorization header."@,
        auth_hint(false)
            == "This server accepts any Bearer token by default so OpenAI client libraries can connect without extra setup."@,
{
}

} // verus!
