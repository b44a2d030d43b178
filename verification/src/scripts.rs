//! The scripts that are run on a page.
//!
//! A selector is put between single quotes and an XPath expression between double quotes; in
//! both, only that quote is escaped.

use vstd::prelude::*;

use crate::text;

verus! {

/// Finds the first element that an XPath expression selects: up to the expression.
pub const RESOLVE_XPATH_HEAD: &'static str = r#"(() => {
                const result = document.evaluate(""#;

/// Finds the first element that an XPath expression selects: from the expression on.
pub const RESOLVE_XPATH_TAIL: &'static str = r#"", document, null, XPathResult.FIRST_ORDERED_NODE_TYPE, null);
                const el = result.singleNodeValue;
                if (!el) return null;
                const rect = el.getBoundingClientRect();
                // Try to build a unique selector
                let sel = null;
                if (el.id) sel = '#' + CSS.escape(el.id);
                else if (el.name) sel = '[name="' + el.name.replace(/"/g, '\\"') + '"]';
                const cx = Math.round(rect.x + rect.width/2);
                const cy = Math.round(rect.y + rect.height/2);
                const names = s => { try { return document.querySelector(s) === el; } catch (e) { return false; } };
                const path = () => {
                    let steps = '';
                    for (let node = el; node.parentElement; node = node.parentElement) {
                        const place = Array.from(node.parentElement.children).indexOf(node) + 1;
                        steps = ' > :nth-child(' + place + ')' + steps;
                    }
                    return ':root' + steps;
                };
                // Where the selector names another element, or a click at the middle would hit
                // another one, the place in the document names the element alone
                if (sel ? !names(sel) : !el.contains(document.elementFromPoint(cx, cy))) sel = path();
                return {
                    found: true,
                    tag: el.tagName,
                    text: (el.innerText || '').trim().slice(0, 200),
                    selector: sel,
                    cx: cx,
                    cy: cy,
                    width: Math.round(rect.width),
                    height: Math.round(rect.height)
                };
            })()"#;

/// Whether an XPath expression selects an element, and a visible one: up to the expression.
pub const XPATH_STATE_HEAD: &'static str = r#"(() => {
                    const result = document.evaluate(""#;

/// Whether an XPath expression selects an element, and a visible one: from the expression on.
pub const XPATH_STATE_TAIL: &'static str = r#"", document, null, XPathResult.FIRST_ORDERED_NODE_TYPE, null);
                    const el = result.singleNodeValue;
                    if (!el) return { found: false, visible: false };
                    const style = window.getComputedStyle(el);
                    const visible = style.display !== 'none' && style.visibility !== 'hidden' && style.opacity !== '0' && el.offsetParent !== null;
                    return { found: true, visible: visible };
                })()"#;

/// The rectangle of the element that a selector names: up to the selector.
pub const BOUNDS_HEAD: &'static str = r#"(() => {
                const el = document.querySelector('"#;

/// The rectangle of the element that a selector names: from the selector on.
pub const BOUNDS_TAIL: &'static str = r#"');
                if (!el) return null;
                const r = el.getBoundingClientRect();
                return [r.x, r.y, r.width, r.height];
            })()"#;

/// Chooses a value and announces the change: up to the selector.
pub const SELECT_HEAD: &'static str = "document.querySelector('";

/// Chooses a value and announces the change: from the selector to the value.
pub const SELECT_VALUE: &'static str = "').value = '";

/// Chooses a value and announces the change: from the value to the selector.
pub const SELECT_EVENT: &'static str = r#"'; 
               document.querySelector('"#;

/// Chooses a value and announces the change: from the selector on.
pub const SELECT_TAIL: &'static str = "').dispatchEvent(new Event('change'));";

/// The visible elements that can be clicked, at most a hundred.
pub const CLICKABLES: &'static str = r#"
            Array.from(document.querySelectorAll('a, button, input, [onclick], [role="button"]'))
                .filter(el => {
                    const rect = el.getBoundingClientRect();
                    return rect.width > 0 && rect.height > 0;
                })
                .slice(0, 100)
                .map(el => {
                    const rect = el.getBoundingClientRect();
                    return {
                        tag: el.tagName.toLowerCase(),
                        text: (el.innerText || el.value || el.getAttribute('aria-label') || '').slice(0, 50),
                        x: Math.round(rect.x + rect.width/2),
                        y: Math.round(rect.y + rect.height/2),
                        width: Math.round(rect.width),
                        height: Math.round(rect.height)
                    };
                });
        "#;

/// Address, title, scroll position and size of the page.
pub const METRICS: &'static str = r#"({
            url: window.location.href,
            title: document.title,
            scrollX: window.scrollX,
            scrollY: window.scrollY,
            innerWidth: window.innerWidth,
            innerHeight: window.innerHeight,
            documentHeight: document.documentElement.scrollHeight
        })"#;

/// The forms of the page with their named fields.
pub const FORMS: &'static str = r#"
            Array.from(document.forms).map((f, i) => ({
                index: i,
                id: f.id,
                action: f.action,
                method: f.method,
                fields: Array.from(f.elements).filter(e => e.name).map(e => ({
                    name: e.name,
                    type: e.type,
                    id: e.id,
                    value: e.value
                }))
            }))
        "#;

/// Sets the value of a named field of a form: up to the form.
pub const FILL_HEAD: &'static str = "document.querySelector('";

/// Sets the value of a named field of a form: from the form to the field.
pub const FILL_NAME: &'static str = r#"')?.querySelector('[name=""#;

/// Sets the value of a named field of a form: from the field to the value.
pub const FILL_VALUE: &'static str = r#""]')?.setAttribute('value', '"#;

/// Sets the value of a named field of a form: from the value on.
pub const FILL_TAIL: &'static str = "')";

/// Installs the interception of requests: up to the rules.
pub const INTERCEPTION_HEAD: &'static str = r#"(() => {
            window.__mcp_routes = "#;

/// Installs the interception of requests: from the rules on.
pub const INTERCEPTION_TAIL: &'static str = r#";
            window.__mcp_intercepted = window.__mcp_intercepted || [];
            if (window.__mcp_interception_installed) return 'updated';

            // Override fetch
            const origFetch = window.fetch;
            window.fetch = async function(input, init) {
                const url = typeof input === 'string' ? input : input.url;
                for (const route of window.__mcp_routes) {
                    if (url.includes(route.pattern) || new RegExp(route.pattern).test(url)) {
                        window.__mcp_intercepted.push({url, method: init?.method || 'GET', time: Date.now(), action: route.action.type});
                        if (route.action.type === 'block') {
                            return new Response('', {status: 0, statusText: 'Blocked by MCP route'});
                        }
                        if (route.action.type === 'mock') {
                            return new Response(route.action.body, {
                                status: route.action.status,
                                headers: {'Content-Type': route.action.contentType}
                            });
                        }
                        // 'log' falls through
                    }
                }
                return origFetch.apply(this, arguments);
            };

            // Override XMLHttpRequest
            const origXHROpen = XMLHttpRequest.prototype.open;
            XMLHttpRequest.prototype.open = function(method, url, ...rest) {
                this.__mcp_url = url;
                this.__mcp_method = method;
                for (const route of window.__mcp_routes) {
                    if (url.includes(route.pattern) || new RegExp(route.pattern).test(url)) {
                        window.__mcp_intercepted.push({url, method, time: Date.now(), action: route.action.type});
                        if (route.action.type === 'block') {
                            this.__mcp_blocked = true;
                        }
                        if (route.action.type === 'mock') {
                            this.__mcp_mock = route.action;
                        }
                    }
                }
                return origXHROpen.apply(this, [method, url, ...rest]);
            };

            const origXHRSend = XMLHttpRequest.prototype.send;
            XMLHttpRequest.prototype.send = function(body) {
                if (this.__mcp_blocked) {
                    Object.defineProperty(this, 'status', {value: 0});
                    Object.defineProperty(this, 'responseText', {value: ''});
                    this.dispatchEvent(new Event('error'));
                    return;
                }
                if (this.__mcp_mock) {
                    Object.defineProperty(this, 'status', {value: this.__mcp_mock.status});
                    Object.defineProperty(this, 'responseText', {value: this.__mcp_mock.body});
                    Object.defineProperty(this, 'readyState', {value: 4});
                    this.dispatchEvent(new Event('readystatechange'));
                    this.dispatchEvent(new Event('load'));
                    return;
                }
                return origXHRSend.apply(this, arguments);
            };

            window.__mcp_originals = {fetch: origFetch, open: origXHROpen, send: origXHRSend};
            window.__mcp_interception_installed = true;
            return 'installed';
        })()"#;

/// Starts to record timings, clicks and changes of address.
pub const TRACE_START: &'static str = r#"(() => {
            window.__mcp_trace = [];
            window.__mcp_trace_start = Date.now();

            // Observe navigation + resource timing
            const observer = new PerformanceObserver(list => {
                for (const entry of list.getEntries()) {
                    window.__mcp_trace.push({
                        type: entry.entryType,
                        name: entry.name.slice(0, 200),
                        start: Math.round(entry.startTime),
                        duration: Math.round(entry.duration),
                        time: Date.now() - window.__mcp_trace_start
                    });
                }
            });
            observer.observe({entryTypes: ['navigation', 'resource', 'longtask', 'paint', 'largest-contentful-paint']});
            window.__mcp_trace_observer = observer;

            // Track clicks
            document.addEventListener('click', e => {
                const target = e.target;
                window.__mcp_trace.push({
                    type: 'click',
                    name: target.tagName + (target.id ? '#' + target.id : '') + (target.className ? '.' + target.className.split(' ')[0] : ''),
                    text: (target.innerText || '').slice(0, 50),
                    x: e.clientX, y: e.clientY,
                    time: Date.now() - window.__mcp_trace_start
                });
            }, true);

            // Track URL changes
            let lastUrl = location.href;
            const urlCheck = setInterval(() => {
                if (location.href !== lastUrl) {
                    window.__mcp_trace.push({
                        type: 'navigation',
                        name: location.href.slice(0, 200),
                        from: lastUrl.slice(0, 200),
                        time: Date.now() - window.__mcp_trace_start
                    });
                    lastUrl = location.href;
                }
            }, 200);
            window.__mcp_trace_url_check = urlCheck;

            return 'trace started';
        })()"#;

/// Stops the recording and removes what it left on the page.
pub const TRACE_CLEANUP: &'static str = r#"(() => {
            if (window.__mcp_trace_observer) window.__mcp_trace_observer.disconnect();
            if (window.__mcp_trace_url_check) clearInterval(window.__mcp_trace_url_check);
            delete window.__mcp_trace;
            delete window.__mcp_trace_start;
            return 'cleaned';
        })()"#;

/// The cookies that scripts of the page can see.
pub const READ_COOKIES: &'static str = "document.cookie.split('; ').filter(c => c.length > 0).map(c => { const i = c.indexOf('='); return { name: c.substring(0, i), value: c.substring(i + 1), domain: location.hostname }; })";

/// Whether the element that a selector names is visible: up to the selector.
pub const VISIBLE_HEAD: &'static str = "(() => { const el = document.querySelector('";

/// Whether the element that a selector names is visible: from the selector on.
pub const VISIBLE_TAIL: &'static str = "'); if (!el) return false; const style = window.getComputedStyle(el); return style.display !== 'none' && style.visibility !== 'hidden' && style.opacity !== '0' && el.offsetParent !== null; })()";

/// Empties the element that has the focus.
pub const CLEAR_ACTIVE: &'static str = "document.activeElement.value = ''";

/// The address of the page.
pub const CURRENT_ADDRESS: &'static str = "window.location.href";

/// Goes back in the history.
pub const HISTORY_BACK: &'static str = "window.history.back()";

/// Goes forward in the history.
pub const HISTORY_FORWARD: &'static str = "window.history.forward()";

/// Loads the page again.
pub const RELOAD: &'static str = "window.location.reload()";

/// The requests that were intercepted, as JSON text.
pub const READ_INTERCEPTED: &'static str = "JSON.stringify(window.__mcp_intercepted || [])";

/// Forgets the requests that were intercepted.
pub const CLEAR_INTERCEPTED: &'static str = "window.__mcp_intercepted = []";

/// Empties the rules and puts the functions that were overridden back.
pub const DISABLE_INTERCEPTION: &'static str = r#"(() => {
            window.__mcp_routes = [];
            const originals = window.__mcp_originals;
            if (originals) {
                window.fetch = originals.fetch;
                XMLHttpRequest.prototype.open = originals.open;
                XMLHttpRequest.prototype.send = originals.send;
                delete window.__mcp_originals;
            }
            window.__mcp_interception_installed = false;
            return 'disabled';
        })()"#;

/// What was recorded, as JSON text.
pub const READ_TRACE: &'static str = "JSON.stringify(window.__mcp_trace || [])";

/// Clicks the element at a point of the window.
pub open spec fn click_at(x: i32, y: i32) -> Seq<char> {
    "document.elementFromPoint("@ + text::integer(x as int) + ", "@ + text::integer(y as int)
        + ")?.click()"@
}

/// Clicks the element at a point of the window.
pub fn click_at_script(x: i32, y: i32) -> (r: String)
    ensures
        r@ == click_at(x, y),
{
    let mut s: String = "document.elementFromPoint(".to_owned();
    text::push_integer(&mut s, x as i64);
    s.append(", ");
    text::push_integer(&mut s, y as i64);
    s.append(")?.click()");
    s
}

/// Empties the element that a selector names.
pub open spec fn clear_value(selector: Seq<char>) -> Seq<char> {
    "document.querySelector('"@ + text::escaped(selector, '\'') + "').value = ''"@
}

/// Empties the element that a selector names.
pub fn clear_value_script(selector: &str) -> (r: String)
    ensures
        r@ == clear_value(selector@),
{
    let mut s: String = "document.querySelector('".to_owned();
    s.append(text::escape(selector, '\'').as_str());
    s.append("').value = ''");
    s
}

/// Whether the element that a selector names is visible.
pub open spec fn visible(selector: Seq<char>) -> Seq<char> {
    VISIBLE_HEAD@ + text::escaped(selector, '\'') + VISIBLE_TAIL@
}

/// Whether the element that a selector names is visible.
pub fn visible_script(selector: &str) -> (r: String)
    ensures
        r@ == visible(selector@),
{
    let mut s: String = VISIBLE_HEAD.to_owned();
    s.append(text::escape(selector, '\'').as_str());
    s.append(VISIBLE_TAIL);
    s
}

/// Finds the first element that an XPath expression selects.
pub open spec fn locate_xpath(xpath: Seq<char>) -> Seq<char> {
    RESOLVE_XPATH_HEAD@ + text::escaped(xpath, '"') + RESOLVE_XPATH_TAIL@
}

/// Finds the first element that an XPath expression selects.
pub fn locate_xpath_script(xpath: &str) -> (r: String)
    ensures
        r@ == locate_xpath(xpath@),
{
    let mut s: String = RESOLVE_XPATH_HEAD.to_owned();
    s.append(text::escape(xpath, '"').as_str());
    s.append(RESOLVE_XPATH_TAIL);
    s
}

/// Whether an XPath expression selects an element, and a visible one.
pub open spec fn xpath_state(xpath: Seq<char>) -> Seq<char> {
    XPATH_STATE_HEAD@ + text::escaped(xpath, '"') + XPATH_STATE_TAIL@
}

/// Whether an XPath expression selects an element, and a visible one.
pub fn xpath_state_script(xpath: &str) -> (r: String)
    ensures
        r@ == xpath_state(xpath@),
{
    let mut s: String = XPATH_STATE_HEAD.to_owned();
    s.append(text::escape(xpath, '"').as_str());
    s.append(XPATH_STATE_TAIL);
    s
}

/// Scrolls the window.
pub open spec fn scroll_by(x: i32, y: i32) -> Seq<char> {
    "window.scrollBy("@ + text::integer(x as int) + ", "@ + text::integer(y as int) + ")"@
}

/// Scrolls the window.
pub fn scroll_by_script(x: i32, y: i32) -> (r: String)
    ensures
        r@ == scroll_by(x, y),
{
    let mut s: String = "window.scrollBy(".to_owned();
    text::push_integer(&mut s, x as i64);
    s.append(", ");
    text::push_integer(&mut s, y as i64);
    s.append(")");
    s
}

/// The rectangle of the element that a selector names.
pub open spec fn bounds(selector: Seq<char>) -> Seq<char> {
    BOUNDS_HEAD@ + text::escaped(selector, '\'') + BOUNDS_TAIL@
}

/// The rectangle of the element that a selector names.
pub fn bounds_script(selector: &str) -> (r: String)
    ensures
        r@ == bounds(selector@),
{
    let mut s: String = BOUNDS_HEAD.to_owned();
    s.append(text::escape(selector, '\'').as_str());
    s.append(BOUNDS_TAIL);
    s
}

/// Chooses a value and announces the change.
pub open spec fn choose_value(selector: Seq<char>, value: Seq<char>) -> Seq<char> {
    SELECT_HEAD@ + text::escaped(selector, '\'') + SELECT_VALUE@ + text::escaped(value, '\'')
        + SELECT_EVENT@ + text::escaped(selector, '\'') + SELECT_TAIL@
}

/// Chooses a value and announces the change.
pub fn choose_value_script(selector: &str, value: &str) -> (r: String)
    ensures
        r@ == choose_value(selector@, value@),
{
    let mut s: String = SELECT_HEAD.to_owned();
    s.append(text::escape(selector, '\'').as_str());
    s.append(SELECT_VALUE);
    s.append(text::escape(value, '\'').as_str());
    s.append(SELECT_EVENT);
    s.append(text::escape(selector, '\'').as_str());
    s.append(SELECT_TAIL);
    s
}

/// Runs a script in a function of its own.
pub open spec fn enclosed(script: Seq<char>) -> Seq<char> {
    "(function(){ "@ + script + " })()"@
}

/// Runs a script in a function of its own.
pub fn enclosed_script(script: &str) -> (r: String)
    ensures
        r@ == enclosed(script@),
{
    let mut s: String = "(function(){ ".to_owned();
    s.append(script);
    s.append(" })()");
    s
}

/// Sets the value of a named field of a form.
pub open spec fn fill_field(form: Seq<char>, name: Seq<char>, value: Seq<char>) -> Seq<char> {
    FILL_HEAD@ + text::escaped(form, '\'') + FILL_NAME@ + text::escaped(name, '"') + FILL_VALUE@
        + text::escaped(value, '\'') + FILL_TAIL@
}

/// Sets the value of a named field of a form.
pub fn fill_field_script(form: &str, name: &str, value: &str) -> (r: String)
    ensures
        r@ == fill_field(form@, name@, value@),
{
    let mut s: String = FILL_HEAD.to_owned();
    s.append(text::escape(form, '\'').as_str());
    s.append(FILL_NAME);
    s.append(text::escape(name, '"').as_str());
    s.append(FILL_VALUE);
    s.append(text::escape(value, '\'').as_str());
    s.append(FILL_TAIL);
    s
}

/// Submits the form that a selector names.
pub open spec fn submit(selector: Seq<char>) -> Seq<char> {
    "document.querySelector('"@ + text::escaped(selector, '\'') + "')?.submit()"@
}

/// Submits the form that a selector names.
pub fn submit_script(selector: &str) -> (r: String)
    ensures
        r@ == submit(selector@),
{
    let mut s: String = "document.querySelector('".to_owned();
    s.append(text::escape(selector, '\'').as_str());
    s.append("')?.submit()");
    s
}

/// Installs the interception of requests, or gives it new rules.
pub open spec fn interception(rules: Seq<char>) -> Seq<char> {
    INTERCEPTION_HEAD@ + rules + INTERCEPTION_TAIL@
}

/// Installs the interception of requests, or gives it new rules.
pub fn interception_script(rules: &str) -> (r: String)
    ensures
        r@ == interception(rules@),
{
    let mut s: String = INTERCEPTION_HEAD.to_owned();
    s.append(rules);
    s.append(INTERCEPTION_TAIL);
    s
}

} // verus!
