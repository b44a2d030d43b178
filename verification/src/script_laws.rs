//! What the scripts on the page do: laws on their texts, piece by piece.

use vstd::prelude::*;

use crate::scripts;
use crate::text;

verus! {

/// The script that finds an element under an XPath expression evaluates the expression.
pub proof fn lemma_resolve_xpath_head()
    ensures
        text::occurs(scripts::RESOLVE_XPATH_HEAD@, "const result = document.evaluate(\""@),
{
    reveal_strlit(r#"(() => {
                const result = document.evaluate(""#);
    assert(text::occurs(scripts::RESOLVE_XPATH_HEAD@, "const result = document.evaluate(\""@)) by {
        reveal_strlit("const result = document.evaluate(\"");
        reveal_with_fuel(text::stands_from, 36);
        text::lemma_stands(scripts::RESOLVE_XPATH_HEAD@, "const result = document.evaluate(\""@, 25);
    }
}

/// It gives `null` where there is none, and else tells the text of the element, its middle and a
/// selector: by its id, by its name, or by its place where these name another one or where a click
/// at its middle would hit another one.
pub proof fn lemma_resolve_xpath_tail()
    ensures
        text::occurs(scripts::RESOLVE_XPATH_TAIL@, "\", document, null, XPathResult.FIRST_ORDERED_NODE_TYPE"@),
        text::occurs(scripts::RESOLVE_XPATH_TAIL@, "const el = result.singleNodeValue;"@),
        text::occurs(scripts::RESOLVE_XPATH_TAIL@, "if (!el) return null;"@),
        text::occurs(scripts::RESOLVE_XPATH_TAIL@, "const rect = el.getBoundingClientRect();"@),
        text::occurs(scripts::RESOLVE_XPATH_TAIL@, "if (el.id) sel = '#' + CSS.escape(el.id);"@),
        text::occurs(scripts::RESOLVE_XPATH_TAIL@, "else if (el.name) sel = '[name=\"' + el.name.replace"@),
        text::occurs(scripts::RESOLVE_XPATH_TAIL@, "const cx = Math.round(rect.x + rect.width/2);"@),
        text::occurs(scripts::RESOLVE_XPATH_TAIL@, "const cy = Math.round(rect.y + rect.height/2);"@),
        text::occurs(scripts::RESOLVE_XPATH_TAIL@, "return document.querySelector(s) === el;"@),
        text::occurs(scripts::RESOLVE_XPATH_TAIL@, "catch (e) { return false; }"@),
        text::occurs(scripts::RESOLVE_XPATH_TAIL@, "node = node.parentElement"@),
        text::occurs(scripts::RESOLVE_XPATH_TAIL@, ".children).indexOf(node) + 1;"@),
        text::occurs(scripts::RESOLVE_XPATH_TAIL@, "steps = ' > :nth-child(' + place + ')' + steps;"@),
        text::occurs(scripts::RESOLVE_XPATH_TAIL@, "return ':root' + steps;"@),
        text::occurs(scripts::RESOLVE_XPATH_TAIL@, "if (sel ? !names(sel) : !el.contains("@),
        text::occurs(scripts::RESOLVE_XPATH_TAIL@, "document.elementFromPoint(cx, cy))) sel = path();"@),
        text::occurs(scripts::RESOLVE_XPATH_TAIL@, "found: true,"@),
        text::occurs(scripts::RESOLVE_XPATH_TAIL@, "tag: el.tagName,"@),
        text::occurs(scripts::RESOLVE_XPATH_TAIL@, "text: (el.innerText || '').trim().slice(0, 200),"@),
        text::occurs(scripts::RESOLVE_XPATH_TAIL@, "selector: sel,"@),
        text::occurs(scripts::RESOLVE_XPATH_TAIL@, "cx: cx,"@),
        text::occurs(scripts::RESOLVE_XPATH_TAIL@, "cy: cy,"@),
        text::occurs(scripts::RESOLVE_XPATH_TAIL@, "width: Math.round(rect.width),"@),
        text::occurs(scripts::RESOLVE_XPATH_TAIL@, "height: Math.round(rect.height)"@),
{
    reveal_strlit(r#"", document, null, XPathResult.FIRST_ORDERED_NODE_TYPE, null);
                const el = result.singleNodeValue;
                if (!el) return null;
                const rect = el.getBoundingClientRect();
                // Try to build a unique selector
                let sel = null;
                if (el.id) sel = '#' + CSS.escape(el.id);
                else if (el.name) sel = '[name="' + el.name.replace(/"/g, '\\"') + '"]';
                const cx = Math.round(rect.x + rect.width/2);
                const cy = Math.round(rect.y + rect.height/2);
                const names = s => { try { return document.querySelector(s) === el; } catch (e) { return false; } };
                const path = () => {
                    let steps = '';
                    for (let node = el; node.parentElement; node = node.parentElement) {
                        const place = Array.from(node.parentElement.children).indexOf(node) + 1;
                        steps = ' > :nth-child(' + place + ')' + steps;
                    }
                    return ':root' + steps;
                };
                // Where the selector names another element, or a click at the middle would hit
                // another one, the place in the document names the element alone
                if (sel ? !names(sel) : !el.contains(document.elementFromPoint(cx, cy))) sel = path();
                return {
                    found: true,
                    tag: el.tagName,
                    text: (el.innerText || '').trim().slice(0, 200),
                    selector: sel,
                    cx: cx,
                    cy: cy,
                    width: Math.round(rect.width),
                    height: Math.round(rect.height)
                };
            })()"#);
    assert(text::occurs(scripts::RESOLVE_XPATH_TAIL@, "\", document, null, XPathResult.FIRST_ORDERED_NODE_TYPE"@)) by {
        reveal_strlit("\", document, null, XPathResult.FIRST_ORDERED_NODE_TYPE");
        reveal_with_fuel(text::stands_from, 56);
        text::lemma_stands(scripts::RESOLVE_XPATH_TAIL@, "\", document, null, XPathResult.FIRST_ORDERED_NODE_TYPE"@, 0);
    }
    assert(text::occurs(scripts::RESOLVE_XPATH_TAIL@, "const el = result.singleNodeValue;"@)) by {
        reveal_strlit("const el = result.singleNodeValue;");
        reveal_with_fuel(text::stands_from, 36);
        text::lemma_stands(scripts::RESOLVE_XPATH_TAIL@, "const el = result.singleNodeValue;"@, 79);
    }
    assert(text::occurs(scripts::RESOLVE_XPATH_TAIL@, "if (!el) return null;"@)) by {
        reveal_strlit("if (!el) return null;");
        reveal_with_fuel(text::stands_from, 23);
        text::lemma_stands(scripts::RESOLVE_XPATH_TAIL@, "if (!el) return null;"@, 130);
    }
    assert(text::occurs(scripts::RESOLVE_XPATH_TAIL@, "const rect = el.getBoundingClientRect();"@)) by {
        reveal_strlit("const rect = el.getBoundingClientRect();");
        reveal_with_fuel(text::stands_from, 42);
        text::lemma_stands(scripts::RESOLVE_XPATH_TAIL@, "const rect = el.getBoundingClientRect();"@, 168);
    }
    assert(text::occurs(scripts::RESOLVE_XPATH_TAIL@, "if (el.id) sel = '#' + CSS.escape(el.id);"@)) by {
        reveal_strlit("if (el.id) sel = '#' + CSS.escape(el.id);");
        reveal_with_fuel(text::stands_from, 43);
        text::lemma_stands(scripts::RESOLVE_XPATH_TAIL@, "if (el.id) sel = '#' + CSS.escape(el.id);"@, 307);
    }
    assert(text::occurs(scripts::RESOLVE_XPATH_TAIL@, "else if (el.name) sel = '[name=\"' + el.name.replace"@)) by {
        reveal_strlit("else if (el.name) sel = '[name=\"' + el.name.replace");
        reveal_with_fuel(text::stands_from, 53);
        text::lemma_stands(scripts::RESOLVE_XPATH_TAIL@, "else if (el.name) sel = '[name=\"' + el.name.replace"@, 365);
    }
    assert(text::occurs(scripts::RESOLVE_XPATH_TAIL@, "const cx = Math.round(rect.x + rect.width/2);"@)) by {
        reveal_strlit("const cx = Math.round(rect.x + rect.width/2);");
        reveal_with_fuel(text::stands_from, 47);
        text::lemma_stands(scripts::RESOLVE_XPATH_TAIL@, "const cx = Math.round(rect.x + rect.width/2);"@, 454);
    }
    assert(text::occurs(scripts::RESOLVE_XPATH_TAIL@, "const cy = Math.round(rect.y + rect.height/2);"@)) by {
        reveal_strlit("const cy = Math.round(rect.y + rect.height/2);");
        reveal_with_fuel(text::stands_from, 48);
        text::lemma_stands(scripts::RESOLVE_XPATH_TAIL@, "const cy = Math.round(rect.y + rect.height/2);"@, 516);
    }
    assert(text::occurs(scripts::RESOLVE_XPATH_TAIL@, "return document.querySelector(s) === el;"@)) by {
        reveal_strlit("return document.querySelector(s) === el;");
        reveal_with_fuel(text::stands_from, 42);
        text::lemma_stands(scripts::RESOLVE_XPATH_TAIL@, "return document.querySelector(s) === el;"@, 606);
    }
    assert(text::occurs(scripts::RESOLVE_XPATH_TAIL@, "catch (e) { return false; }"@)) by {
        reveal_strlit("catch (e) { return false; }");
        reveal_with_fuel(text::stands_from, 29);
        text::lemma_stands(scripts::RESOLVE_XPATH_TAIL@, "catch (e) { return false; }"@, 649);
    }
    assert(text::occurs(scripts::RESOLVE_XPATH_TAIL@, "node = node.parentElement"@)) by {
        reveal_strlit("node = node.parentElement");
        reveal_with_fuel(text::stands_from, 27);
        text::lemma_stands(scripts::RESOLVE_XPATH_TAIL@, "node = node.parentElement"@, 813);
    }
    assert(text::occurs(scripts::RESOLVE_XPATH_TAIL@, ".children).indexOf(node) + 1;"@)) by {
        reveal_strlit(".children).indexOf(node) + 1;");
        reveal_with_fuel(text::stands_from, 31);
        text::lemma_stands(scripts::RESOLVE_XPATH_TAIL@, ".children).indexOf(node) + 1;"@, 909);
    }
    assert(text::occurs(scripts::RESOLVE_XPATH_TAIL@, "steps = ' > :nth-child(' + place + ')' + steps;"@)) by {
        reveal_strlit("steps = ' > :nth-child(' + place + ')' + steps;");
        reveal_with_fuel(text::stands_from, 49);
        text::lemma_stands(scripts::RESOLVE_XPATH_TAIL@, "steps = ' > :nth-child(' + place + ')' + steps;"@, 963);
    }
    assert(text::occurs(scripts::RESOLVE_XPATH_TAIL@, "return ':root' + steps;"@)) by {
        reveal_strlit("return ':root' + steps;");
        reveal_with_fuel(text::stands_from, 25);
        text::lemma_stands(scripts::RESOLVE_XPATH_TAIL@, "return ':root' + steps;"@, 1053);
    }
    assert(text::occurs(scripts::RESOLVE_XPATH_TAIL@, "if (sel ? !names(sel) : !el.contains("@)) by {
        reveal_strlit("if (sel ? !names(sel) : !el.contains(");
        reveal_with_fuel(text::stands_from, 39);
        text::lemma_stands(scripts::RESOLVE_XPATH_TAIL@, "if (sel ? !names(sel) : !el.contains("@, 1290);
    }
    assert(text::occurs(scripts::RESOLVE_XPATH_TAIL@, "document.elementFromPoint(cx, cy))) sel = path();"@)) by {
        reveal_strlit("document.elementFromPoint(cx, cy))) sel = path();");
        reveal_with_fuel(text::stands_from, 51);
        text::lemma_stands(scripts::RESOLVE_XPATH_TAIL@, "document.elementFromPoint(cx, cy))) sel = path();"@, 1327);
    }
    assert(text::occurs(scripts::RESOLVE_XPATH_TAIL@, "found: true,"@)) by {
        reveal_strlit("found: true,");
        reveal_with_fuel(text::stands_from, 14);
        text::lemma_stands(scripts::RESOLVE_XPATH_TAIL@, "found: true,"@, 1422);
    }
    assert(text::occurs(scripts::RESOLVE_XPATH_TAIL@, "tag: el.tagName,"@)) by {
        reveal_strlit("tag: el.tagName,");
        reveal_with_fuel(text::stands_from, 18);
        text::lemma_stands(scripts::RESOLVE_XPATH_TAIL@, "tag: el.tagName,"@, 1455);
    }
    assert(text::occurs(scripts::RESOLVE_XPATH_TAIL@, "text: (el.innerText || '').trim().slice(0, 200),"@)) by {
        reveal_strlit("text: (el.innerText || '').trim().slice(0, 200),");
        reveal_with_fuel(text::stands_from, 50);
        text::lemma_stands(scripts::RESOLVE_XPATH_TAIL@, "text: (el.innerText || '').trim().slice(0, 200),"@, 1492);
    }
    assert(text::occurs(scripts::RESOLVE_XPATH_TAIL@, "selector: sel,"@)) by {
        reveal_strlit("selector: sel,");
        reveal_with_fuel(text::stands_from, 16);
        text::lemma_stands(scripts::RESOLVE_XPATH_TAIL@, "selector: sel,"@, 1561);
    }
    assert(text::occurs(scripts::RESOLVE_XPATH_TAIL@, "cx: cx,"@)) by {
        reveal_strlit("cx: cx,");
        reveal_with_fuel(text::stands_from, 9);
        text::lemma_stands(scripts::RESOLVE_XPATH_TAIL@, "cx: cx,"@, 1596);
    }
    assert(text::occurs(scripts::RESOLVE_XPATH_TAIL@, "cy: cy,"@)) by {
        reveal_strlit("cy: cy,");
        reveal_with_fuel(text::stands_from, 9);
        text::lemma_stands(scripts::RESOLVE_XPATH_TAIL@, "cy: cy,"@, 1624);
    }
    assert(text::occurs(scripts::RESOLVE_XPATH_TAIL@, "width: Math.round(rect.width),"@)) by {
        reveal_strlit("width: Math.round(rect.width),");
        reveal_with_fuel(text::stands_from, 32);
        text::lemma_stands(scripts::RESOLVE_XPATH_TAIL@, "width: Math.round(rect.width),"@, 1652);
    }
    assert(text::occurs(scripts::RESOLVE_XPATH_TAIL@, "height: Math.round(rect.height)"@)) by {
        reveal_strlit("height: Math.round(rect.height)");
        reveal_with_fuel(text::stands_from, 33);
        text::lemma_stands(scripts::RESOLVE_XPATH_TAIL@, "height: Math.round(rect.height)"@, 1703);
    }
}

/// The script that looks at the element under an XPath expression evaluates the expression.
pub proof fn lemma_xpath_state_head()
    ensures
        text::occurs(scripts::XPATH_STATE_HEAD@, "const result = document.evaluate(\""@),
{
    reveal_strlit(r#"(() => {
                    const result = document.evaluate(""#);
    assert(text::occurs(scripts::XPATH_STATE_HEAD@, "const result = document.evaluate(\""@)) by {
        reveal_strlit("const result = document.evaluate(\"");
        reveal_with_fuel(text::stands_from, 36);
        text::lemma_stands(scripts::XPATH_STATE_HEAD@, "const result = document.evaluate(\""@, 29);
    }
}

/// It tells whether the element was found and whether it is visible: displayed, not hidden, not
/// transparent and with a place in the layout.
pub proof fn lemma_xpath_state_tail()
    ensures
        text::occurs(scripts::XPATH_STATE_TAIL@, "\", document, null, XPathResult.FIRST_ORDERED_NODE_TYPE"@),
        text::occurs(scripts::XPATH_STATE_TAIL@, "const el = result.singleNodeValue;"@),
        text::occurs(scripts::XPATH_STATE_TAIL@, "if (!el) return { found: false, visible: false };"@),
        text::occurs(scripts::XPATH_STATE_TAIL@, "const style = window.getComputedStyle(el);"@),
        text::occurs(scripts::XPATH_STATE_TAIL@, "const visible = style.display !== 'none'"@),
        text::occurs(scripts::XPATH_STATE_TAIL@, "&& style.visibility !== 'hidden'"@),
        text::occurs(scripts::XPATH_STATE_TAIL@, "&& style.opacity !== '0'"@),
        text::occurs(scripts::XPATH_STATE_TAIL@, "&& el.offsetParent !== null;"@),
        text::occurs(scripts::XPATH_STATE_TAIL@, "return { found: true, visible: visible };"@),
{
    reveal_strlit(r#"", document, null, XPathResult.FIRST_ORDERED_NODE_TYPE, null);
                    const el = result.singleNodeValue;
                    if (!el) return { found: false, visible: false };
                    const style = window.getComputedStyle(el);
                    const visible = style.display !== 'none' && style.visibility !== 'hidden' && style.opacity !== '0' && el.offsetParent !== null;
                    return { found: true, visible: visible };
                })()"#);
    assert(text::occurs(scripts::XPATH_STATE_TAIL@, "\", document, null, XPathResult.FIRST_ORDERED_NODE_TYPE"@)) by {
        reveal_strlit("\", document, null, XPathResult.FIRST_ORDERED_NODE_TYPE");
        reveal_with_fuel(text::stands_from, 56);
        text::lemma_stands(scripts::XPATH_STATE_TAIL@, "\", document, null, XPathResult.FIRST_ORDERED_NODE_TYPE"@, 0);
    }
    assert(text::occurs(scripts::XPATH_STATE_TAIL@, "const el = result.singleNodeValue;"@)) by {
        reveal_strlit("const el = result.singleNodeValue;");
        reveal_with_fuel(text::stands_from, 36);
        text::lemma_stands(scripts::XPATH_STATE_TAIL@, "const el = result.singleNodeValue;"@, 83);
    }
    assert(text::occurs(scripts::XPATH_STATE_TAIL@, "if (!el) return { found: false, visible: false };"@)) by {
        reveal_strlit("if (!el) return { found: false, visible: false };");
        reveal_with_fuel(text::stands_from, 51);
        text::lemma_stands(scripts::XPATH_STATE_TAIL@, "if (!el) return { found: false, visible: false };"@, 138);
    }
    assert(text::occurs(scripts::XPATH_STATE_TAIL@, "const style = window.getComputedStyle(el);"@)) by {
        reveal_strlit("const style = window.getComputedStyle(el);");
        reveal_with_fuel(text::stands_from, 44);
        text::lemma_stands(scripts::XPATH_STATE_TAIL@, "const style = window.getComputedStyle(el);"@, 208);
    }
    assert(text::occurs(scripts::XPATH_STATE_TAIL@, "const visible = style.display !== 'none'"@)) by {
        reveal_strlit("const visible = style.display !== 'none'");
        reveal_with_fuel(text::stands_from, 42);
        text::lemma_stands(scripts::XPATH_STATE_TAIL@, "const visible = style.display !== 'none'"@, 271);
    }
    assert(text::occurs(scripts::XPATH_STATE_TAIL@, "&& style.visibility !== 'hidden'"@)) by {
        reveal_strlit("&& style.visibility !== 'hidden'");
        reveal_with_fuel(text::stands_from, 34);
        text::lemma_stands(scripts::XPATH_STATE_TAIL@, "&& style.visibility !== 'hidden'"@, 312);
    }
    assert(text::occurs(scripts::XPATH_STATE_TAIL@, "&& style.opacity !== '0'"@)) by {
        reveal_strlit("&& style.opacity !== '0'");
        reveal_with_fuel(text::stands_from, 26);
        text::lemma_stands(scripts::XPATH_STATE_TAIL@, "&& style.opacity !== '0'"@, 345);
    }
    assert(text::occurs(scripts::XPATH_STATE_TAIL@, "&& el.offsetParent !== null;"@)) by {
        reveal_strlit("&& el.offsetParent !== null;");
        reveal_with_fuel(text::stands_from, 30);
        text::lemma_stands(scripts::XPATH_STATE_TAIL@, "&& el.offsetParent !== null;"@, 370);
    }
    assert(text::occurs(scripts::XPATH_STATE_TAIL@, "return { found: true, visible: visible };"@)) by {
        reveal_strlit("return { found: true, visible: visible };");
        reveal_with_fuel(text::stands_from, 43);
        text::lemma_stands(scripts::XPATH_STATE_TAIL@, "return { found: true, visible: visible };"@, 419);
    }
}

/// The script that looks at the element of a selector looks it up.
pub proof fn lemma_visible_head()
    ensures
        text::occurs(scripts::VISIBLE_HEAD@, "const el = document.querySelector('"@),
{
    reveal_strlit("(() => { const el = document.querySelector('");
    assert(text::occurs(scripts::VISIBLE_HEAD@, "const el = document.querySelector('"@)) by {
        reveal_strlit("const el = document.querySelector('");
        reveal_with_fuel(text::stands_from, 37);
        text::lemma_stands(scripts::VISIBLE_HEAD@, "const el = document.querySelector('"@, 9);
    }
}

/// It says whether the element is visible, in the same way.
pub proof fn lemma_visible_tail()
    ensures
        text::occurs(scripts::VISIBLE_TAIL@, "if (!el) return false;"@),
        text::occurs(scripts::VISIBLE_TAIL@, "const style = window.getComputedStyle(el);"@),
        text::occurs(scripts::VISIBLE_TAIL@, "return style.display !== 'none'"@),
        text::occurs(scripts::VISIBLE_TAIL@, "&& style.visibility !== 'hidden'"@),
        text::occurs(scripts::VISIBLE_TAIL@, "&& style.opacity !== '0'"@),
        text::occurs(scripts::VISIBLE_TAIL@, "&& el.offsetParent !== null;"@),
{
    reveal_strlit("'); if (!el) return false; const style = window.getComputedStyle(el); return style.display !== 'none' && style.visibility !== 'hidden' && style.opacity !== '0' && el.offsetParent !== null; })()");
    assert(text::occurs(scripts::VISIBLE_TAIL@, "if (!el) return false;"@)) by {
        reveal_strlit("if (!el) return false;");
        reveal_with_fuel(text::stands_from, 24);
        text::lemma_stands(scripts::VISIBLE_TAIL@, "if (!el) return false;"@, 4);
    }
    assert(text::occurs(scripts::VISIBLE_TAIL@, "const style = window.getComputedStyle(el);"@)) by {
        reveal_strlit("const style = window.getComputedStyle(el);");
        reveal_with_fuel(text::stands_from, 44);
        text::lemma_stands(scripts::VISIBLE_TAIL@, "const style = window.getComputedStyle(el);"@, 27);
    }
    assert(text::occurs(scripts::VISIBLE_TAIL@, "return style.display !== 'none'"@)) by {
        reveal_strlit("return style.display !== 'none'");
        reveal_with_fuel(text::stands_from, 33);
        text::lemma_stands(scripts::VISIBLE_TAIL@, "return style.display !== 'none'"@, 70);
    }
    assert(text::occurs(scripts::VISIBLE_TAIL@, "&& style.visibility !== 'hidden'"@)) by {
        reveal_strlit("&& style.visibility !== 'hidden'");
        reveal_with_fuel(text::stands_from, 34);
        text::lemma_stands(scripts::VISIBLE_TAIL@, "&& style.visibility !== 'hidden'"@, 102);
    }
    assert(text::occurs(scripts::VISIBLE_TAIL@, "&& style.opacity !== '0'"@)) by {
        reveal_strlit("&& style.opacity !== '0'");
        reveal_with_fuel(text::stands_from, 26);
        text::lemma_stands(scripts::VISIBLE_TAIL@, "&& style.opacity !== '0'"@, 135);
    }
    assert(text::occurs(scripts::VISIBLE_TAIL@, "&& el.offsetParent !== null;"@)) by {
        reveal_strlit("&& el.offsetParent !== null;");
        reveal_with_fuel(text::stands_from, 30);
        text::lemma_stands(scripts::VISIBLE_TAIL@, "&& el.offsetParent !== null;"@, 160);
    }
}

/// The script that measures an element looks it up.
pub proof fn lemma_bounds_head()
    ensures
        text::occurs(scripts::BOUNDS_HEAD@, "const el = document.querySelector('"@),
{
    reveal_strlit(r#"(() => {
                const el = document.querySelector('"#);
    assert(text::occurs(scripts::BOUNDS_HEAD@, "const el = document.querySelector('"@)) by {
        reveal_strlit("const el = document.querySelector('");
        reveal_with_fuel(text::stands_from, 37);
        text::lemma_stands(scripts::BOUNDS_HEAD@, "const el = document.querySelector('"@, 25);
    }
}

/// It gives left, top, width and height of the element, in this order, or `null`.
pub proof fn lemma_bounds_tail()
    ensures
        text::occurs(scripts::BOUNDS_TAIL@, "if (!el) return null;"@),
        text::occurs(scripts::BOUNDS_TAIL@, "const r = el.getBoundingClientRect();"@),
        text::occurs(scripts::BOUNDS_TAIL@, "return [r.x, r.y, r.width, r.height];"@),
{
    reveal_strlit(r#"');
                if (!el) return null;
                const r = el.getBoundingClientRect();
                return [r.x, r.y, r.width, r.height];
            })()"#);
    assert(text::occurs(scripts::BOUNDS_TAIL@, "if (!el) return null;"@)) by {
        reveal_strlit("if (!el) return null;");
        reveal_with_fuel(text::stands_from, 23);
        text::lemma_stands(scripts::BOUNDS_TAIL@, "if (!el) return null;"@, 20);
    }
    assert(text::occurs(scripts::BOUNDS_TAIL@, "const r = el.getBoundingClientRect();"@)) by {
        reveal_strlit("const r = el.getBoundingClientRect();");
        reveal_with_fuel(text::stands_from, 39);
        text::lemma_stands(scripts::BOUNDS_TAIL@, "const r = el.getBoundingClientRect();"@, 58);
    }
    assert(text::occurs(scripts::BOUNDS_TAIL@, "return [r.x, r.y, r.width, r.height];"@)) by {
        reveal_strlit("return [r.x, r.y, r.width, r.height];");
        reveal_with_fuel(text::stands_from, 39);
        text::lemma_stands(scripts::BOUNDS_TAIL@, "return [r.x, r.y, r.width, r.height];"@, 112);
    }
}

/// Between the value and the event that tells of it the field is looked up again.
pub proof fn lemma_select_event()
    ensures
        text::occurs(scripts::SELECT_EVENT@, "'; \n               document.querySelector('"@),
{
    reveal_strlit(r#"'; 
               document.querySelector('"#);
    assert(text::occurs(scripts::SELECT_EVENT@, "'; \n               document.querySelector('"@)) by {
        reveal_strlit("'; \n               document.querySelector('");
        reveal_with_fuel(text::stands_from, 45);
        text::lemma_stands(scripts::SELECT_EVENT@, "'; \n               document.querySelector('"@, 0);
    }
}

/// What can be clicked: up to a hundred links, buttons and fields that have a size, with their text
/// and their middle.
pub proof fn lemma_clickables()
    ensures
        text::occurs(scripts::CLICKABLES@, "document.querySelectorAll('a, button, input, "@),
        text::occurs(scripts::CLICKABLES@, "[onclick], [role=\"button\"]'))"@),
        text::occurs(scripts::CLICKABLES@, "return rect.width > 0 && rect.height > 0;"@),
        text::occurs(scripts::CLICKABLES@, ".slice(0, 100)"@),
        text::occurs(scripts::CLICKABLES@, "tag: el.tagName.toLowerCase(),"@),
        text::occurs(scripts::CLICKABLES@, "text: (el.innerText || el.value || "@),
        text::occurs(scripts::CLICKABLES@, "el.getAttribute('aria-label') || '').slice(0, 50),"@),
        text::occurs(scripts::CLICKABLES@, "x: Math.round(rect.x + rect.width/2),"@),
        text::occurs(scripts::CLICKABLES@, "y: Math.round(rect.y + rect.height/2),"@),
        text::occurs(scripts::CLICKABLES@, "width: Math.round(rect.width),"@),
        text::occurs(scripts::CLICKABLES@, "height: Math.round(rect.height)"@),
{
    reveal_strlit(r#"
            Array.from(document.querySelectorAll('a, button, input, [onclick], [role="button"]'))
                .filter(el => {
                    const rect = el.getBoundingClientRect();
                    return rect.width > 0 && rect.height > 0;
                })
                .slice(0, 100)
                .map(el => {
                    const rect = el.getBoundingClientRect();
                    return {
                        tag: el.tagName.toLowerCase(),
                        text: (el.innerText || el.value || el.getAttribute('aria-label') || '').slice(0, 50),
                        x: Math.round(rect.x + rect.width/2),
                        y: Math.round(rect.y + rect.height/2),
                        width: Math.round(rect.width),
                        height: Math.round(rect.height)
                    };
                });
        "#);
    assert(text::occurs(scripts::CLICKABLES@, "document.querySelectorAll('a, button, input, "@)) by {
        reveal_strlit("document.querySelectorAll('a, button, input, ");
        reveal_with_fuel(text::stands_from, 47);
        text::lemma_stands(scripts::CLICKABLES@, "document.querySelectorAll('a, button, input, "@, 24);
    }
    assert(text::occurs(scripts::CLICKABLES@, "[onclick], [role=\"button\"]'))"@)) by {
        reveal_strlit("[onclick], [role=\"button\"]'))");
        reveal_with_fuel(text::stands_from, 31);
        text::lemma_stands(scripts::CLICKABLES@, "[onclick], [role=\"button\"]'))"@, 69);
    }
    assert(text::occurs(scripts::CLICKABLES@, "return rect.width > 0 && rect.height > 0;"@)) by {
        reveal_strlit("return rect.width > 0 && rect.height > 0;");
        reveal_with_fuel(text::stands_from, 43);
        text::lemma_stands(scripts::CLICKABLES@, "return rect.width > 0 && rect.height > 0;"@, 212);
    }
    assert(text::occurs(scripts::CLICKABLES@, ".slice(0, 100)"@)) by {
        reveal_strlit(".slice(0, 100)");
        reveal_with_fuel(text::stands_from, 16);
        text::lemma_stands(scripts::CLICKABLES@, ".slice(0, 100)"@, 289);
    }
    assert(text::occurs(scripts::CLICKABLES@, "tag: el.tagName.toLowerCase(),"@)) by {
        reveal_strlit("tag: el.tagName.toLowerCase(),");
        reveal_with_fuel(text::stands_from, 32);
        text::lemma_stands(scripts::CLICKABLES@, "tag: el.tagName.toLowerCase(),"@, 447);
    }
    assert(text::occurs(scripts::CLICKABLES@, "text: (el.innerText || el.value || "@)) by {
        reveal_strlit("text: (el.innerText || el.value || ");
        reveal_with_fuel(text::stands_from, 37);
        text::lemma_stands(scripts::CLICKABLES@, "text: (el.innerText || el.value || "@, 502);
    }
    assert(text::occurs(scripts::CLICKABLES@, "el.getAttribute('aria-label') || '').slice(0, 50),"@)) by {
        reveal_strlit("el.getAttribute('aria-label') || '').slice(0, 50),");
        reveal_with_fuel(text::stands_from, 52);
        text::lemma_stands(scripts::CLICKABLES@, "el.getAttribute('aria-label') || '').slice(0, 50),"@, 537);
    }
    assert(text::occurs(scripts::CLICKABLES@, "x: Math.round(rect.x + rect.width/2),"@)) by {
        reveal_strlit("x: Math.round(rect.x + rect.width/2),");
        reveal_with_fuel(text::stands_from, 39);
        text::lemma_stands(scripts::CLICKABLES@, "x: Math.round(rect.x + rect.width/2),"@, 612);
    }
    assert(text::occurs(scripts::CLICKABLES@, "y: Math.round(rect.y + rect.height/2),"@)) by {
        reveal_strlit("y: Math.round(rect.y + rect.height/2),");
        reveal_with_fuel(text::stands_from, 40);
        text::lemma_stands(scripts::CLICKABLES@, "y: Math.round(rect.y + rect.height/2),"@, 674);
    }
    assert(text::occurs(scripts::CLICKABLES@, "width: Math.round(rect.width),"@)) by {
        reveal_strlit("width: Math.round(rect.width),");
        reveal_with_fuel(text::stands_from, 32);
        text::lemma_stands(scripts::CLICKABLES@, "width: Math.round(rect.width),"@, 737);
    }
    assert(text::occurs(scripts::CLICKABLES@, "height: Math.round(rect.height)"@)) by {
        reveal_strlit("height: Math.round(rect.height)");
        reveal_with_fuel(text::stands_from, 33);
        text::lemma_stands(scripts::CLICKABLES@, "height: Math.round(rect.height)"@, 792);
    }
}

/// What is told of the page: its address and title, how far it is scrolled, the size of the window
/// and the height of the document.
pub proof fn lemma_metrics()
    ensures
        text::occurs(scripts::METRICS@, "url: window.location.href,"@),
        text::occurs(scripts::METRICS@, "title: document.title,"@),
        text::occurs(scripts::METRICS@, "scrollX: window.scrollX,"@),
        text::occurs(scripts::METRICS@, "scrollY: window.scrollY,"@),
        text::occurs(scripts::METRICS@, "innerWidth: window.innerWidth,"@),
        text::occurs(scripts::METRICS@, "innerHeight: window.innerHeight,"@),
        text::occurs(scripts::METRICS@, "documentHeight: document.documentElement.scrollHeight"@),
{
    reveal_strlit(r#"({
            url: window.location.href,
            title: document.title,
            scrollX: window.scrollX,
            scrollY: window.scrollY,
            innerWidth: window.innerWidth,
            innerHeight: window.innerHeight,
            documentHeight: document.documentElement.scrollHeight
        })"#);
    assert(text::occurs(scripts::METRICS@, "url: window.location.href,"@)) by {
        reveal_strlit("url: window.location.href,");
        reveal_with_fuel(text::stands_from, 28);
        text::lemma_stands(scripts::METRICS@, "url: window.location.href,"@, 15);
    }
    assert(text::occurs(scripts::METRICS@, "title: document.title,"@)) by {
        reveal_strlit("title: document.title,");
        reveal_with_fuel(text::stands_from, 24);
        text::lemma_stands(scripts::METRICS@, "title: document.title,"@, 54);
    }
    assert(text::occurs(scripts::METRICS@, "scrollX: window.scrollX,"@)) by {
        reveal_strlit("scrollX: window.scrollX,");
        reveal_with_fuel(text::stands_from, 26);
        text::lemma_stands(scripts::METRICS@, "scrollX: window.scrollX,"@, 89);
    }
    assert(text::occurs(scripts::METRICS@, "scrollY: window.scrollY,"@)) by {
        reveal_strlit("scrollY: window.scrollY,");
        reveal_with_fuel(text::stands_from, 26);
        text::lemma_stands(scripts::METRICS@, "scrollY: window.scrollY,"@, 126);
    }
    assert(text::occurs(scripts::METRICS@, "innerWidth: window.innerWidth,"@)) by {
        reveal_strlit("innerWidth: window.innerWidth,");
        reveal_with_fuel(text::stands_from, 32);
        text::lemma_stands(scripts::METRICS@, "innerWidth: window.innerWidth,"@, 163);
    }
    assert(text::occurs(scripts::METRICS@, "innerHeight: window.innerHeight,"@)) by {
        reveal_strlit("innerHeight: window.innerHeight,");
        reveal_with_fuel(text::stands_from, 34);
        text::lemma_stands(scripts::METRICS@, "innerHeight: window.innerHeight,"@, 206);
    }
    assert(text::occurs(scripts::METRICS@, "documentHeight: document.documentElement.scrollHeight"@)) by {
        reveal_strlit("documentHeight: document.documentElement.scrollHeight");
        reveal_with_fuel(text::stands_from, 55);
        text::lemma_stands(scripts::METRICS@, "documentHeight: document.documentElement.scrollHeight"@, 251);
    }
}

/// What is told of the forms: each with its place, id, action and method, and its named fields with
/// name, type, id and value.
pub proof fn lemma_forms()
    ensures
        text::occurs(scripts::FORMS@, "Array.from(document.forms).map((f, i) => ({"@),
        text::occurs(scripts::FORMS@, "index: i,"@),
        text::occurs(scripts::FORMS@, "id: f.id,"@),
        text::occurs(scripts::FORMS@, "action: f.action,"@),
        text::occurs(scripts::FORMS@, "method: f.method,"@),
        text::occurs(scripts::FORMS@, "fields: Array.from(f.elements)"@),
        text::occurs(scripts::FORMS@, ".filter(e => e.name).map(e => ({"@),
        text::occurs(scripts::FORMS@, "name: e.name,"@),
        text::occurs(scripts::FORMS@, "type: e.type,"@),
        text::occurs(scripts::FORMS@, "id: e.id,"@),
        text::occurs(scripts::FORMS@, "value: e.value"@),
{
    reveal_strlit(r#"
            Array.from(document.forms).map((f, i) => ({
                index: i,
                id: f.id,
                action: f.action,
                method: f.method,
                fields: Array.from(f.elements).filter(e => e.name).map(e => ({
                    name: e.name,
                    type: e.type,
                    id: e.id,
                    value: e.value
                }))
            }))
        "#);
    assert(text::occurs(scripts::FORMS@, "Array.from(document.forms).map((f, i) => ({"@)) by {
        reveal_strlit("Array.from(document.forms).map((f, i) => ({");
        reveal_with_fuel(text::stands_from, 45);
        text::lemma_stands(scripts::FORMS@, "Array.from(document.forms).map((f, i) => ({"@, 13);
    }
    assert(text::occurs(scripts::FORMS@, "index: i,"@)) by {
        reveal_strlit("index: i,");
        reveal_with_fuel(text::stands_from, 11);
        text::lemma_stands(scripts::FORMS@, "index: i,"@, 73);
    }
    assert(text::occurs(scripts::FORMS@, "id: f.id,"@)) by {
        reveal_strlit("id: f.id,");
        reveal_with_fuel(text::stands_from, 11);
        text::lemma_stands(scripts::FORMS@, "id: f.id,"@, 99);
    }
    assert(text::occurs(scripts::FORMS@, "action: f.action,"@)) by {
        reveal_strlit("action: f.action,");
        reveal_with_fuel(text::stands_from, 19);
        text::lemma_stands(scripts::FORMS@, "action: f.action,"@, 125);
    }
    assert(text::occurs(scripts::FORMS@, "method: f.method,"@)) by {
        reveal_strlit("method: f.method,");
        reveal_with_fuel(text::stands_from, 19);
        text::lemma_stands(scripts::FORMS@, "method: f.method,"@, 159);
    }
    assert(text::occurs(scripts::FORMS@, "fields: Array.from(f.elements)"@)) by {
        reveal_strlit("fields: Array.from(f.elements)");
        reveal_with_fuel(text::stands_from, 32);
        text::lemma_stands(scripts::FORMS@, "fields: Array.from(f.elements)"@, 193);
    }
    assert(text::occurs(scripts::FORMS@, ".filter(e => e.name).map(e => ({"@)) by {
        reveal_strlit(".filter(e => e.name).map(e => ({");
        reveal_with_fuel(text::stands_from, 34);
        text::lemma_stands(scripts::FORMS@, ".filter(e => e.name).map(e => ({"@, 223);
    }
    assert(text::occurs(scripts::FORMS@, "name: e.name,"@)) by {
        reveal_strlit("name: e.name,");
        reveal_with_fuel(text::stands_from, 15);
        text::lemma_stands(scripts::FORMS@, "name: e.name,"@, 276);
    }
    assert(text::occurs(scripts::FORMS@, "type: e.type,"@)) by {
        reveal_strlit("type: e.type,");
        reveal_with_fuel(text::stands_from, 15);
        text::lemma_stands(scripts::FORMS@, "type: e.type,"@, 310);
    }
    assert(text::occurs(scripts::FORMS@, "id: e.id,"@)) by {
        reveal_strlit("id: e.id,");
        reveal_with_fuel(text::stands_from, 11);
        text::lemma_stands(scripts::FORMS@, "id: e.id,"@, 344);
    }
    assert(text::occurs(scripts::FORMS@, "value: e.value"@)) by {
        reveal_strlit("value: e.value");
        reveal_with_fuel(text::stands_from, 16);
        text::lemma_stands(scripts::FORMS@, "value: e.value"@, 374);
    }
}

/// The cookies that a script sees: what stands before the first `=` is the name, what stands behind
/// it the value, and the host is the domain.
pub proof fn lemma_read_cookies()
    ensures
        text::occurs(scripts::READ_COOKIES@, "document.cookie.split('; ')"@),
        text::occurs(scripts::READ_COOKIES@, ".filter(c => c.length > 0)"@),
        text::occurs(scripts::READ_COOKIES@, "const i = c.indexOf('=');"@),
        text::occurs(scripts::READ_COOKIES@, "name: c.substring(0, i),"@),
        text::occurs(scripts::READ_COOKIES@, "value: c.substring(i + 1),"@),
        text::occurs(scripts::READ_COOKIES@, "domain: location.hostname }"@),
{
    reveal_strlit("document.cookie.split('; ').filter(c => c.length > 0).map(c => { const i = c.indexOf('='); return { name: c.substring(0, i), value: c.substring(i + 1), domain: location.hostname }; })");
    assert(text::occurs(scripts::READ_COOKIES@, "document.cookie.split('; ')"@)) by {
        reveal_strlit("document.cookie.split('; ')");
        reveal_with_fuel(text::stands_from, 29);
        text::lemma_stands(scripts::READ_COOKIES@, "document.cookie.split('; ')"@, 0);
    }
    assert(text::occurs(scripts::READ_COOKIES@, ".filter(c => c.length > 0)"@)) by {
        reveal_strlit(".filter(c => c.length > 0)");
        reveal_with_fuel(text::stands_from, 28);
        text::lemma_stands(scripts::READ_COOKIES@, ".filter(c => c.length > 0)"@, 27);
    }
    assert(text::occurs(scripts::READ_COOKIES@, "const i = c.indexOf('=');"@)) by {
        reveal_strlit("const i = c.indexOf('=');");
        reveal_with_fuel(text::stands_from, 27);
        text::lemma_stands(scripts::READ_COOKIES@, "const i = c.indexOf('=');"@, 65);
    }
    assert(text::occurs(scripts::READ_COOKIES@, "name: c.substring(0, i),"@)) by {
        reveal_strlit("name: c.substring(0, i),");
        reveal_with_fuel(text::stands_from, 26);
        text::lemma_stands(scripts::READ_COOKIES@, "name: c.substring(0, i),"@, 100);
    }
    assert(text::occurs(scripts::READ_COOKIES@, "value: c.substring(i + 1),"@)) by {
        reveal_strlit("value: c.substring(i + 1),");
        reveal_with_fuel(text::stands_from, 28);
        text::lemma_stands(scripts::READ_COOKIES@, "value: c.substring(i + 1),"@, 125);
    }
    assert(text::occurs(scripts::READ_COOKIES@, "domain: location.hostname }"@)) by {
        reveal_strlit("domain: location.hostname }");
        reveal_with_fuel(text::stands_from, 29);
        text::lemma_stands(scripts::READ_COOKIES@, "domain: location.hostname }"@, 152);
    }
}

/// The script that installs the interception takes the rules.
pub proof fn lemma_interception_head()
    ensures
        text::occurs(scripts::INTERCEPTION_HEAD@, "window.__mcp_routes = "@),
{
    reveal_strlit(r#"(() => {
            window.__mcp_routes = "#);
    assert(text::occurs(scripts::INTERCEPTION_HEAD@, "window.__mcp_routes = "@)) by {
        reveal_strlit("window.__mcp_routes = ");
        reveal_with_fuel(text::stands_from, 24);
        text::lemma_stands(scripts::INTERCEPTION_HEAD@, "window.__mcp_routes = "@, 21);
    }
}

/// It overrides the functions for requests once and keeps the original ones. A request that a rule
/// matches is noted with its type; one of a block rule is not made, one of a mock rule is answered
/// with its status, type and body, and any other goes out.
pub proof fn lemma_interception_tail()
    ensures
        text::occurs(scripts::INTERCEPTION_TAIL@, "window.__mcp_intercepted = window.__mcp_intercepted || [];"@),
        text::occurs(scripts::INTERCEPTION_TAIL@, "if (window.__mcp_interception_installed) return 'updated';"@),
        text::occurs(scripts::INTERCEPTION_TAIL@, "const origFetch = window.fetch;"@),
        text::occurs(scripts::INTERCEPTION_TAIL@, "window.fetch = async function(input, init) {"@),
        text::occurs(scripts::INTERCEPTION_TAIL@, "const url = typeof input === 'string' ? input : input.url;"@),
        text::occurs(scripts::INTERCEPTION_TAIL@, "for (const route of window.__mcp_routes) {"@),
        text::occurs(scripts::INTERCEPTION_TAIL@, "if (url.includes(route.pattern) ||"@),
        text::occurs(scripts::INTERCEPTION_TAIL@, "new RegExp(route.pattern).test(url)) {"@),
        text::occurs(scripts::INTERCEPTION_TAIL@, "window.__mcp_intercepted.push({url, method: init?.method"@),
        text::occurs(scripts::INTERCEPTION_TAIL@, "|| 'GET', time: Date.now(), action: route.action.type});"@),
        text::occurs(scripts::INTERCEPTION_TAIL@, "=== 'block') {\n                            return new Response('',"@),
        text::occurs(scripts::INTERCEPTION_TAIL@, "=== 'mock') {\n                            return new Response("@),
        text::occurs(scripts::INTERCEPTION_TAIL@, "new Response(route.action.body, {"@),
        text::occurs(scripts::INTERCEPTION_TAIL@, "status: route.action.status,"@),
        text::occurs(scripts::INTERCEPTION_TAIL@, "headers: {'Content-Type': route.action.contentType}"@),
        text::occurs(scripts::INTERCEPTION_TAIL@, "// 'log' falls through"@),
        text::occurs(scripts::INTERCEPTION_TAIL@, "return origFetch.apply(this, arguments);"@),
        text::occurs(scripts::INTERCEPTION_TAIL@, "const origXHROpen = XMLHttpRequest.prototype.open;"@),
        text::occurs(scripts::INTERCEPTION_TAIL@, "XMLHttpRequest.prototype.open = function(method, url, "@),
        text::occurs(scripts::INTERCEPTION_TAIL@, "=== 'block') {\n                            this.__mcp_blocked = true;"@),
        text::occurs(scripts::INTERCEPTION_TAIL@, "=== 'mock') {\n                            this.__mcp_mock = "@),
        text::occurs(scripts::INTERCEPTION_TAIL@, "this.__mcp_mock = route.action;"@),
        text::occurs(scripts::INTERCEPTION_TAIL@, "return origXHROpen.apply(this, [method, url, ...rest]);"@),
        text::occurs(scripts::INTERCEPTION_TAIL@, "const origXHRSend = XMLHttpRequest.prototype.send;"@),
        text::occurs(scripts::INTERCEPTION_TAIL@, "XMLHttpRequest.prototype.send = function(body) {"@),
        text::occurs(scripts::INTERCEPTION_TAIL@, "if (this.__mcp_blocked) {"@),
        text::occurs(scripts::INTERCEPTION_TAIL@, "if (this.__mcp_mock) {"@),
        text::occurs(scripts::INTERCEPTION_TAIL@, "'status', {value: this.__mcp_mock.status}"@),
        text::occurs(scripts::INTERCEPTION_TAIL@, "'responseText', {value: this.__mcp_mock.body}"@),
        text::occurs(scripts::INTERCEPTION_TAIL@, "return origXHRSend.apply(this, arguments);"@),
        text::occurs(scripts::INTERCEPTION_TAIL@, "window.__mcp_originals = {fetch: origFetch, "@),
        text::occurs(scripts::INTERCEPTION_TAIL@, "open: origXHROpen, send: origXHRSend};"@),
        text::occurs(scripts::INTERCEPTION_TAIL@, "window.__mcp_interception_installed = true;"@),
{
    reveal_strlit(r#";
            window.__mcp_intercepted = window.__mcp_intercepted || [];
            if (window.__mcp_interception_installed) return 'updated';

            // Override fetch
            const origFetch = window.fetch;
            window.fetch = async function(input, init) {
                const url = typeof input === 'string' ? input : input.url;
                for (const route of window.__mcp_routes) {
                    if (url.includes(route.pattern) || new RegExp(route.pattern).test(url)) {
                        window.__mcp_intercepted.push({url, method: init?.method || 'GET', time: Date.now(), action: route.action.type});
                        if (route.action.type === 'block') {
                            return new Response('', {status: 0, statusText: 'Blocked by MCP route'});
                        }
                        if (route.action.type === 'mock') {
                            return new Response(route.action.body, {
                                status: route.action.status,
                                headers: {'Content-Type': route.action.contentType}
                            });
                        }
                        // 'log' falls through
                    }
                }
                return origFetch.apply(this, arguments);
            };

            // Override XMLHttpRequest
            const origXHROpen = XMLHttpRequest.prototype.open;
            XMLHttpRequest.prototype.open = function(method, url, ...rest) {
                this.__mcp_url = url;
                this.__mcp_method = method;
                for (const route of window.__mcp_routes) {
                    if (url.includes(route.pattern) || new RegExp(route.pattern).test(url)) {
                        window.__mcp_intercepted.push({url, method, time: Date.now(), action: route.action.type});
                        if (route.action.type === 'block') {
                            this.__mcp_blocked = true;
                        }
                        if (route.action.type === 'mock') {
                            this.__mcp_mock = route.action;
                        }
                    }
                }
                return origXHROpen.apply(this, [method, url, ...rest]);
            };

            const origXHRSend = XMLHttpRequest.prototype.send;
            XMLHttpRequest.prototype.send = function(body) {
                if (this.__mcp_blocked) {
                    Object.defineProperty(this, 'status', {value: 0});
                    Object.defineProperty(this, 'responseText', {value: ''});
                    this.dispatchEvent(new Event('error'));
                    return;
                }
                if (this.__mcp_mock) {
                    Object.defineProperty(this, 'status', {value: this.__mcp_mock.status});
                    Object.defineProperty(this, 'responseText', {value: this.__mcp_mock.body});
                    Object.defineProperty(this, 'readyState', {value: 4});
                    this.dispatchEvent(new Event('readystatechange'));
                    this.dispatchEvent(new Event('load'));
                    return;
                }
                return origXHRSend.apply(this, arguments);
            };

            window.__mcp_originals = {fetch: origFetch, open: origXHROpen, send: origXHRSend};
            window.__mcp_interception_installed = true;
            return 'installed';
        })()"#);
    assert(text::occurs(scripts::INTERCEPTION_TAIL@, "window.__mcp_intercepted = window.__mcp_intercepted || [];"@)) by {
        reveal_strlit("window.__mcp_intercepted = window.__mcp_intercepted || [];");
        reveal_with_fuel(text::stands_from, 60);
        text::lemma_stands(scripts::INTERCEPTION_TAIL@, "window.__mcp_intercepted = window.__mcp_intercepted || [];"@, 14);
    }
    assert(text::occurs(scripts::INTERCEPTION_TAIL@, "if (window.__mcp_interception_installed) return 'updated';"@)) by {
        reveal_strlit("if (window.__mcp_interception_installed) return 'updated';");
        reveal_with_fuel(text::stands_from, 60);
        text::lemma_stands(scripts::INTERCEPTION_TAIL@, "if (window.__mcp_interception_installed) return 'updated';"@, 85);
    }
    assert(text::occurs(scripts::INTERCEPTION_TAIL@, "const origFetch = window.fetch;"@)) by {
        reveal_strlit("const origFetch = window.fetch;");
        reveal_with_fuel(text::stands_from, 33);
        text::lemma_stands(scripts::INTERCEPTION_TAIL@, "const origFetch = window.fetch;"@, 187);
    }
    assert(text::occurs(scripts::INTERCEPTION_TAIL@, "window.fetch = async function(input, init) {"@)) by {
        reveal_strlit("window.fetch = async function(input, init) {");
        reveal_with_fuel(text::stands_from, 46);
        text::lemma_stands(scripts::INTERCEPTION_TAIL@, "window.fetch = async function(input, init) {"@, 231);
    }
    assert(text::occurs(scripts::INTERCEPTION_TAIL@, "const url = typeof input === 'string' ? input : input.url;"@)) by {
        reveal_strlit("const url = typeof input === 'string' ? input : input.url;");
        reveal_with_fuel(text::stands_from, 60);
        text::lemma_stands(scripts::INTERCEPTION_TAIL@, "const url = typeof input === 'string' ? input : input.url;"@, 292);
    }
    assert(text::occurs(scripts::INTERCEPTION_TAIL@, "for (const route of window.__mcp_routes) {"@)) by {
        reveal_strlit("for (const route of window.__mcp_routes) {");
        reveal_with_fuel(text::stands_from, 44);
        text::lemma_stands(scripts::INTERCEPTION_TAIL@, "for (const route of window.__mcp_routes) {"@, 367);
    }
    assert(text::occurs(scripts::INTERCEPTION_TAIL@, "if (url.includes(route.pattern) ||"@)) by {
        reveal_strlit("if (url.includes(route.pattern) ||");
        reveal_with_fuel(text::stands_from, 36);
        text::lemma_stands(scripts::INTERCEPTION_TAIL@, "if (url.includes(route.pattern) ||"@, 430);
    }
    assert(text::occurs(scripts::INTERCEPTION_TAIL@, "new RegExp(route.pattern).test(url)) {"@)) by {
        reveal_strlit("new RegExp(route.pattern).test(url)) {");
        reveal_with_fuel(text::stands_from, 40);
        text::lemma_stands(scripts::INTERCEPTION_TAIL@, "new RegExp(route.pattern).test(url)) {"@, 465);
    }
    assert(text::occurs(scripts::INTERCEPTION_TAIL@, "window.__mcp_intercepted.push({url, method: init?.method"@)) by {
        reveal_strlit("window.__mcp_intercepted.push({url, method: init?.method");
        reveal_with_fuel(text::stands_from, 58);
        text::lemma_stands(scripts::INTERCEPTION_TAIL@, "window.__mcp_intercepted.push({url, method: init?.method"@, 528);
    }
    assert(text::occurs(scripts::INTERCEPTION_TAIL@, "|| 'GET', time: Date.now(), action: route.action.type});"@)) by {
        reveal_strlit("|| 'GET', time: Date.now(), action: route.action.type});");
        reveal_with_fuel(text::stands_from, 58);
        text::lemma_stands(scripts::INTERCEPTION_TAIL@, "|| 'GET', time: Date.now(), action: route.action.type});"@, 585);
    }
    assert(text::occurs(scripts::INTERCEPTION_TAIL@, "=== 'block') {\n                            return new Response('',"@)) by {
        reveal_strlit("=== 'block') {\n                            return new Response('',");
        reveal_with_fuel(text::stands_from, 68);
        text::lemma_stands(scripts::INTERCEPTION_TAIL@, "=== 'block') {\n                            return new Response('',"@, 688);
    }
    assert(text::occurs(scripts::INTERCEPTION_TAIL@, "=== 'mock') {\n                            return new Response("@)) by {
        reveal_strlit("=== 'mock') {\n                            return new Response(");
        reveal_with_fuel(text::stands_from, 64);
        text::lemma_stands(scripts::INTERCEPTION_TAIL@, "=== 'mock') {\n                            return new Response("@, 877);
    }
    assert(text::occurs(scripts::INTERCEPTION_TAIL@, "new Response(route.action.body, {"@)) by {
        reveal_strlit("new Response(route.action.body, {");
        reveal_with_fuel(text::stands_from, 35);
        text::lemma_stands(scripts::INTERCEPTION_TAIL@, "new Response(route.action.body, {"@, 926);
    }
    assert(text::occurs(scripts::INTERCEPTION_TAIL@, "status: route.action.status,"@)) by {
        reveal_strlit("status: route.action.status,");
        reveal_with_fuel(text::stands_from, 30);
        text::lemma_stands(scripts::INTERCEPTION_TAIL@, "status: route.action.status,"@, 992);
    }
    assert(text::occurs(scripts::INTERCEPTION_TAIL@, "headers: {'Content-Type': route.action.contentType}"@)) by {
        reveal_strlit("headers: {'Content-Type': route.action.contentType}");
        reveal_with_fuel(text::stands_from, 53);
        text::lemma_stands(scripts::INTERCEPTION_TAIL@, "headers: {'Content-Type': route.action.contentType}"@, 1053);
    }
    assert(text::occurs(scripts::INTERCEPTION_TAIL@, "// 'log' falls through"@)) by {
        reveal_strlit("// 'log' falls through");
        reveal_with_fuel(text::stands_from, 24);
        text::lemma_stands(scripts::INTERCEPTION_TAIL@, "// 'log' falls through"@, 1187);
    }
    assert(text::occurs(scripts::INTERCEPTION_TAIL@, "return origFetch.apply(this, arguments);"@)) by {
        reveal_strlit("return origFetch.apply(this, arguments);");
        reveal_with_fuel(text::stands_from, 42);
        text::lemma_stands(scripts::INTERCEPTION_TAIL@, "return origFetch.apply(this, arguments);"@, 1266);
    }
    assert(text::occurs(scripts::INTERCEPTION_TAIL@, "const origXHROpen = XMLHttpRequest.prototype.open;"@)) by {
        reveal_strlit("const origXHROpen = XMLHttpRequest.prototype.open;");
        reveal_with_fuel(text::stands_from, 52);
        text::lemma_stands(scripts::INTERCEPTION_TAIL@, "const origXHROpen = XMLHttpRequest.prototype.open;"@, 1374);
    }
    assert(text::occurs(scripts::INTERCEPTION_TAIL@, "XMLHttpRequest.prototype.open = function(method, url, "@)) by {
        reveal_strlit("XMLHttpRequest.prototype.open = function(method, url, ");
        reveal_with_fuel(text::stands_from, 56);
        text::lemma_stands(scripts::INTERCEPTION_TAIL@, "XMLHttpRequest.prototype.open = function(method, url, "@, 1437);
    }
    assert(text::occurs(scripts::INTERCEPTION_TAIL@, "=== 'block') {\n                            this.__mcp_blocked = true;"@)) by {
        reveal_strlit("=== 'block') {\n                            this.__mcp_blocked = true;");
        reveal_with_fuel(text::stands_from, 71);
        text::lemma_stands(scripts::INTERCEPTION_TAIL@, "=== 'block') {\n                            this.__mcp_blocked = true;"@, 1898);
    }
    assert(text::occurs(scripts::INTERCEPTION_TAIL@, "=== 'mock') {\n                            this.__mcp_mock = "@)) by {
        reveal_strlit("=== 'mock') {\n                            this.__mcp_mock = ");
        reveal_with_fuel(text::stands_from, 62);
        text::lemma_stands(scripts::INTERCEPTION_TAIL@, "=== 'mock') {\n                            this.__mcp_mock = "@, 2040);
    }
    assert(text::occurs(scripts::INTERCEPTION_TAIL@, "this.__mcp_mock = route.action;"@)) by {
        reveal_strlit("this.__mcp_mock = route.action;");
        reveal_with_fuel(text::stands_from, 33);
        text::lemma_stands(scripts::INTERCEPTION_TAIL@, "this.__mcp_mock = route.action;"@, 2082);
    }
    assert(text::occurs(scripts::INTERCEPTION_TAIL@, "return origXHROpen.apply(this, [method, url, ...rest]);"@)) by {
        reveal_strlit("return origXHROpen.apply(this, [method, url, ...rest]);");
        reveal_with_fuel(text::stands_from, 57);
        text::lemma_stands(scripts::INTERCEPTION_TAIL@, "return origXHROpen.apply(this, [method, url, ...rest]);"@, 2196);
    }
    assert(text::occurs(scripts::INTERCEPTION_TAIL@, "const origXHRSend = XMLHttpRequest.prototype.send;"@)) by {
        reveal_strlit("const origXHRSend = XMLHttpRequest.prototype.send;");
        reveal_with_fuel(text::stands_from, 52);
        text::lemma_stands(scripts::INTERCEPTION_TAIL@, "const origXHRSend = XMLHttpRequest.prototype.send;"@, 2280);
    }
    assert(text::occurs(scripts::INTERCEPTION_TAIL@, "XMLHttpRequest.prototype.send = function(body) {"@)) by {
        reveal_strlit("XMLHttpRequest.prototype.send = function(body) {");
        reveal_with_fuel(text::stands_from, 50);
        text::lemma_stands(scripts::INTERCEPTION_TAIL@, "XMLHttpRequest.prototype.send = function(body) {"@, 2343);
    }
    assert(text::occurs(scripts::INTERCEPTION_TAIL@, "if (this.__mcp_blocked) {"@)) by {
        reveal_strlit("if (this.__mcp_blocked) {");
        reveal_with_fuel(text::stands_from, 27);
        text::lemma_stands(scripts::INTERCEPTION_TAIL@, "if (this.__mcp_blocked) {"@, 2408);
    }
    assert(text::occurs(scripts::INTERCEPTION_TAIL@, "if (this.__mcp_mock) {"@)) by {
        reveal_strlit("if (this.__mcp_mock) {");
        reveal_with_fuel(text::stands_from, 24);
        text::lemma_stands(scripts::INTERCEPTION_TAIL@, "if (this.__mcp_mock) {"@, 2705);
    }
    assert(text::occurs(scripts::INTERCEPTION_TAIL@, "'status', {value: this.__mcp_mock.status}"@)) by {
        reveal_strlit("'status', {value: this.__mcp_mock.status}");
        reveal_with_fuel(text::stands_from, 43);
        text::lemma_stands(scripts::INTERCEPTION_TAIL@, "'status', {value: this.__mcp_mock.status}"@, 2776);
    }
    assert(text::occurs(scripts::INTERCEPTION_TAIL@, "'responseText', {value: this.__mcp_mock.body}"@)) by {
        reveal_strlit("'responseText', {value: this.__mcp_mock.body}");
        reveal_with_fuel(text::stands_from, 47);
        text::lemma_stands(scripts::INTERCEPTION_TAIL@, "'responseText', {value: this.__mcp_mock.body}"@, 2868);
    }
    assert(text::occurs(scripts::INTERCEPTION_TAIL@, "return origXHRSend.apply(this, arguments);"@)) by {
        reveal_strlit("return origXHRSend.apply(this, arguments);");
        reveal_with_fuel(text::stands_from, 44);
        text::lemma_stands(scripts::INTERCEPTION_TAIL@, "return origXHRSend.apply(this, arguments);"@, 3183);
    }
    assert(text::occurs(scripts::INTERCEPTION_TAIL@, "window.__mcp_originals = {fetch: origFetch, "@)) by {
        reveal_strlit("window.__mcp_originals = {fetch: origFetch, ");
        reveal_with_fuel(text::stands_from, 46);
        text::lemma_stands(scripts::INTERCEPTION_TAIL@, "window.__mcp_originals = {fetch: origFetch, "@, 3254);
    }
    assert(text::occurs(scripts::INTERCEPTION_TAIL@, "open: origXHROpen, send: origXHRSend};"@)) by {
        reveal_strlit("open: origXHROpen, send: origXHRSend};");
        reveal_with_fuel(text::stands_from, 40);
        text::lemma_stands(scripts::INTERCEPTION_TAIL@, "open: origXHROpen, send: origXHRSend};"@, 3298);
    }
    assert(text::occurs(scripts::INTERCEPTION_TAIL@, "window.__mcp_interception_installed = true;"@)) by {
        reveal_strlit("window.__mcp_interception_installed = true;");
        reveal_with_fuel(text::stands_from, 45);
        text::lemma_stands(scripts::INTERCEPTION_TAIL@, "window.__mcp_interception_installed = true;"@, 3349);
    }
}

/// The script that disables the interception drops the rules and puts the original functions back.
pub proof fn lemma_disable_interception()
    ensures
        text::occurs(scripts::DISABLE_INTERCEPTION@, "window.__mcp_routes = [];"@),
        text::occurs(scripts::DISABLE_INTERCEPTION@, "const originals = window.__mcp_originals;"@),
        text::occurs(scripts::DISABLE_INTERCEPTION@, "window.fetch = originals.fetch;"@),
        text::occurs(scripts::DISABLE_INTERCEPTION@, "XMLHttpRequest.prototype.open = originals.open;"@),
        text::occurs(scripts::DISABLE_INTERCEPTION@, "XMLHttpRequest.prototype.send = originals.send;"@),
        text::occurs(scripts::DISABLE_INTERCEPTION@, "window.__mcp_interception_installed = false;"@),
{
    reveal_strlit(r#"(() => {
            window.__mcp_routes = [];
            const originals = window.__mcp_originals;
            if (originals) {
                window.fetch = originals.fetch;
                XMLHttpRequest.prototype.open = originals.open;
                XMLHttpRequest.prototype.send = originals.send;
                delete window.__mcp_originals;
            }
            window.__mcp_interception_installed = false;
            return 'disabled';
        })()"#);
    assert(text::occurs(scripts::DISABLE_INTERCEPTION@, "window.__mcp_routes = [];"@)) by {
        reveal_strlit("window.__mcp_routes = [];");
        reveal_with_fuel(text::stands_from, 27);
        text::lemma_stands(scripts::DISABLE_INTERCEPTION@, "window.__mcp_routes = [];"@, 21);
    }
    assert(text::occurs(scripts::DISABLE_INTERCEPTION@, "const originals = window.__mcp_originals;"@)) by {
        reveal_strlit("const originals = window.__mcp_originals;");
        reveal_with_fuel(text::stands_from, 43);
        text::lemma_stands(scripts::DISABLE_INTERCEPTION@, "const originals = window.__mcp_originals;"@, 59);
    }
    assert(text::occurs(scripts::DISABLE_INTERCEPTION@, "window.fetch = originals.fetch;"@)) by {
        reveal_strlit("window.fetch = originals.fetch;");
        reveal_with_fuel(text::stands_from, 33);
        text::lemma_stands(scripts::DISABLE_INTERCEPTION@, "window.fetch = originals.fetch;"@, 146);
    }
    assert(text::occurs(scripts::DISABLE_INTERCEPTION@, "XMLHttpRequest.prototype.open = originals.open;"@)) by {
        reveal_strlit("XMLHttpRequest.prototype.open = originals.open;");
        reveal_with_fuel(text::stands_from, 49);
        text::lemma_stands(scripts::DISABLE_INTERCEPTION@, "XMLHttpRequest.prototype.open = originals.open;"@, 194);
    }
    assert(text::occurs(scripts::DISABLE_INTERCEPTION@, "XMLHttpRequest.prototype.send = originals.send;"@)) by {
        reveal_strlit("XMLHttpRequest.prototype.send = originals.send;");
        reveal_with_fuel(text::stands_from, 49);
        text::lemma_stands(scripts::DISABLE_INTERCEPTION@, "XMLHttpRequest.prototype.send = originals.send;"@, 258);
    }
    assert(text::occurs(scripts::DISABLE_INTERCEPTION@, "window.__mcp_interception_installed = false;"@)) by {
        reveal_strlit("window.__mcp_interception_installed = false;");
        reveal_with_fuel(text::stands_from, 46);
        text::lemma_stands(scripts::DISABLE_INTERCEPTION@, "window.__mcp_interception_installed = false;"@, 379);
    }
}

/// The script that starts a trace makes the array that is read at the end, and fills it with what
/// the browser measures, with clicks and with changes of the address.
pub proof fn lemma_trace_start()
    ensures
        text::occurs(scripts::TRACE_START@, "window.__mcp_trace = [];"@),
        text::occurs(scripts::TRACE_START@, "window.__mcp_trace_start = Date.now();"@),
        text::occurs(scripts::TRACE_START@, "for (const entry of list.getEntries()) {"@),
        text::occurs(scripts::TRACE_START@, "window.__mcp_trace.push({"@),
        text::occurs(scripts::TRACE_START@, "type: entry.entryType,"@),
        text::occurs(scripts::TRACE_START@, "name: entry.name.slice(0, 200),"@),
        text::occurs(scripts::TRACE_START@, "start: Math.round(entry.startTime),"@),
        text::occurs(scripts::TRACE_START@, "duration: Math.round(entry.duration),"@),
        text::occurs(scripts::TRACE_START@, "time: Date.now() - window.__mcp_trace_start"@),
        text::occurs(scripts::TRACE_START@, "observer.observe({entryTypes: ['navigation', "@),
        text::occurs(scripts::TRACE_START@, "'resource', 'longtask', 'paint', "@),
        text::occurs(scripts::TRACE_START@, "'largest-contentful-paint']});"@),
        text::occurs(scripts::TRACE_START@, "window.__mcp_trace_observer = observer;"@),
        text::occurs(scripts::TRACE_START@, "document.addEventListener('click', e => {"@),
        text::occurs(scripts::TRACE_START@, "type: 'click',"@),
        text::occurs(scripts::TRACE_START@, "x: e.clientX, y: e.clientY,"@),
        text::occurs(scripts::TRACE_START@, "if (location.href !== lastUrl) {"@),
        text::occurs(scripts::TRACE_START@, "type: 'navigation',"@),
        text::occurs(scripts::TRACE_START@, "name: location.href.slice(0, 200),"@),
        text::occurs(scripts::TRACE_START@, "from: lastUrl.slice(0, 200),"@),
        text::occurs(scripts::TRACE_START@, "window.__mcp_trace_url_check = urlCheck;"@),
{
    reveal_strlit(r#"(() => {
            window.__mcp_trace = [];
            window.__mcp_trace_start = Date.now();

            // Observe navigation + resource timing
            const observer = new PerformanceObserver(list => {
                for (const entry of list.getEntries()) {
                    window.__mcp_trace.push({
                        type: entry.entryType,
                        name: entry.name.slice(0, 200),
                        start: Math.round(entry.startTime),
                        duration: Math.round(entry.duration),
                        time: Date.now() - window.__mcp_trace_start
                    });
                }
            });
            observer.observe({entryTypes: ['navigation', 'resource', 'longtask', 'paint', 'largest-contentful-paint']});
            window.__mcp_trace_observer = observer;

            // Track clicks
            document.addEventListener('click', e => {
                const target = e.target;
                window.__mcp_trace.push({
                    type: 'click',
                    name: target.tagName + (target.id ? '#' + target.id : '') + (target.className ? '.' + target.className.split(' ')[0] : ''),
                    text: (target.innerText || '').slice(0, 50),
                    x: e.clientX, y: e.clientY,
                    time: Date.now() - window.__mcp_trace_start
                });
            }, true);

            // Track URL changes
            let lastUrl = location.href;
            const urlCheck = setInterval(() => {
                if (location.href !== lastUrl) {
                    window.__mcp_trace.push({
                        type: 'navigation',
                        name: location.href.slice(0, 200),
                        from: lastUrl.slice(0, 200),
                        time: Date.now() - window.__mcp_trace_start
                    });
                    lastUrl = location.href;
                }
            }, 200);
            window.__mcp_trace_url_check = urlCheck;

            return 'trace started';
        })()"#);
    assert(text::occurs(scripts::TRACE_START@, "window.__mcp_trace = [];"@)) by {
        reveal_strlit("window.__mcp_trace = [];");
        reveal_with_fuel(text::stands_from, 26);
        text::lemma_stands(scripts::TRACE_START@, "window.__mcp_trace = [];"@, 21);
    }
    assert(text::occurs(scripts::TRACE_START@, "window.__mcp_trace_start = Date.now();"@)) by {
        reveal_strlit("window.__mcp_trace_start = Date.now();");
        reveal_with_fuel(text::stands_from, 40);
        text::lemma_stands(scripts::TRACE_START@, "window.__mcp_trace_start = Date.now();"@, 58);
    }
    assert(text::occurs(scripts::TRACE_START@, "for (const entry of list.getEntries()) {"@)) by {
        reveal_strlit("for (const entry of list.getEntries()) {");
        reveal_with_fuel(text::stands_from, 42);
        text::lemma_stands(scripts::TRACE_START@, "for (const entry of list.getEntries()) {"@, 229);
    }
    assert(text::occurs(scripts::TRACE_START@, "window.__mcp_trace.push({"@)) by {
        reveal_strlit("window.__mcp_trace.push({");
        reveal_with_fuel(text::stands_from, 27);
        text::lemma_stands(scripts::TRACE_START@, "window.__mcp_trace.push({"@, 290);
    }
    assert(text::occurs(scripts::TRACE_START@, "type: entry.entryType,"@)) by {
        reveal_strlit("type: entry.entryType,");
        reveal_with_fuel(text::stands_from, 24);
        text::lemma_stands(scripts::TRACE_START@, "type: entry.entryType,"@, 340);
    }
    assert(text::occurs(scripts::TRACE_START@, "name: entry.name.slice(0, 200),"@)) by {
        reveal_strlit("name: entry.name.slice(0, 200),");
        reveal_with_fuel(text::stands_from, 33);
        text::lemma_stands(scripts::TRACE_START@, "name: entry.name.slice(0, 200),"@, 387);
    }
    assert(text::occurs(scripts::TRACE_START@, "start: Math.round(entry.startTime),"@)) by {
        reveal_strlit("start: Math.round(entry.startTime),");
        reveal_with_fuel(text::stands_from, 37);
        text::lemma_stands(scripts::TRACE_START@, "start: Math.round(entry.startTime),"@, 443);
    }
    assert(text::occurs(scripts::TRACE_START@, "duration: Math.round(entry.duration),"@)) by {
        reveal_strlit("duration: Math.round(entry.duration),");
        reveal_with_fuel(text::stands_from, 39);
        text::lemma_stands(scripts::TRACE_START@, "duration: Math.round(entry.duration),"@, 503);
    }
    assert(text::occurs(scripts::TRACE_START@, "time: Date.now() - window.__mcp_trace_start"@)) by {
        reveal_strlit("time: Date.now() - window.__mcp_trace_start");
        reveal_with_fuel(text::stands_from, 45);
        text::lemma_stands(scripts::TRACE_START@, "time: Date.now() - window.__mcp_trace_start"@, 565);
    }
    assert(text::occurs(scripts::TRACE_START@, "observer.observe({entryTypes: ['navigation', "@)) by {
        reveal_strlit("observer.observe({entryTypes: ['navigation', ");
        reveal_with_fuel(text::stands_from, 47);
        text::lemma_stands(scripts::TRACE_START@, "observer.observe({entryTypes: ['navigation', "@, 679);
    }
    assert(text::occurs(scripts::TRACE_START@, "'resource', 'longtask', 'paint', "@)) by {
        reveal_strlit("'resource', 'longtask', 'paint', ");
        reveal_with_fuel(text::stands_from, 35);
        text::lemma_stands(scripts::TRACE_START@, "'resource', 'longtask', 'paint', "@, 724);
    }
    assert(text::occurs(scripts::TRACE_START@, "'largest-contentful-paint']});"@)) by {
        reveal_strlit("'largest-contentful-paint']});");
        reveal_with_fuel(text::stands_from, 32);
        text::lemma_stands(scripts::TRACE_START@, "'largest-contentful-paint']});"@, 757);
    }
    assert(text::occurs(scripts::TRACE_START@, "window.__mcp_trace_observer = observer;"@)) by {
        reveal_strlit("window.__mcp_trace_observer = observer;");
        reveal_with_fuel(text::stands_from, 41);
        text::lemma_stands(scripts::TRACE_START@, "window.__mcp_trace_observer = observer;"@, 800);
    }
    assert(text::occurs(scripts::TRACE_START@, "document.addEventListener('click', e => {"@)) by {
        reveal_strlit("document.addEventListener('click', e => {");
        reveal_with_fuel(text::stands_from, 43);
        text::lemma_stands(scripts::TRACE_START@, "document.addEventListener('click', e => {"@, 881);
    }
    assert(text::occurs(scripts::TRACE_START@, "type: 'click',"@)) by {
        reveal_strlit("type: 'click',");
        reveal_with_fuel(text::stands_from, 16);
        text::lemma_stands(scripts::TRACE_START@, "type: 'click',"@, 1026);
    }
    assert(text::occurs(scripts::TRACE_START@, "x: e.clientX, y: e.clientY,"@)) by {
        reveal_strlit("x: e.clientX, y: e.clientY,");
        reveal_with_fuel(text::stands_from, 29);
        text::lemma_stands(scripts::TRACE_START@, "x: e.clientX, y: e.clientY,"@, 1270);
    }
    assert(text::occurs(scripts::TRACE_START@, "if (location.href !== lastUrl) {"@)) by {
        reveal_strlit("if (location.href !== lastUrl) {");
        reveal_with_fuel(text::stands_from, 34);
        text::lemma_stands(scripts::TRACE_START@, "if (location.href !== lastUrl) {"@, 1544);
    }
    assert(text::occurs(scripts::TRACE_START@, "type: 'navigation',"@)) by {
        reveal_strlit("type: 'navigation',");
        reveal_with_fuel(text::stands_from, 21);
        text::lemma_stands(scripts::TRACE_START@, "type: 'navigation',"@, 1647);
    }
    assert(text::occurs(scripts::TRACE_START@, "name: location.href.slice(0, 200),"@)) by {
        reveal_strlit("name: location.href.slice(0, 200),");
        reveal_with_fuel(text::stands_from, 36);
        text::lemma_stands(scripts::TRACE_START@, "name: location.href.slice(0, 200),"@, 1691);
    }
    assert(text::occurs(scripts::TRACE_START@, "from: lastUrl.slice(0, 200),"@)) by {
        reveal_strlit("from: lastUrl.slice(0, 200),");
        reveal_with_fuel(text::stands_from, 30);
        text::lemma_stands(scripts::TRACE_START@, "from: lastUrl.slice(0, 200),"@, 1750);
    }
    assert(text::occurs(scripts::TRACE_START@, "window.__mcp_trace_url_check = urlCheck;"@)) by {
        reveal_strlit("window.__mcp_trace_url_check = urlCheck;");
        reveal_with_fuel(text::stands_from, 42);
        text::lemma_stands(scripts::TRACE_START@, "window.__mcp_trace_url_check = urlCheck;"@, 1967);
    }
}

/// The script that cleans up after a trace stops its observers and forgets what was recorded.
pub proof fn lemma_trace_cleanup()
    ensures
        text::occurs(scripts::TRACE_CLEANUP@, "window.__mcp_trace_observer.disconnect();"@),
        text::occurs(scripts::TRACE_CLEANUP@, "clearInterval(window.__mcp_trace_url_check);"@),
        text::occurs(scripts::TRACE_CLEANUP@, "delete window.__mcp_trace;"@),
        text::occurs(scripts::TRACE_CLEANUP@, "delete window.__mcp_trace_start;"@),
{
    reveal_strlit(r#"(() => {
            if (window.__mcp_trace_observer) window.__mcp_trace_observer.disconnect();
            if (window.__mcp_trace_url_check) clearInterval(window.__mcp_trace_url_check);
            delete window.__mcp_trace;
            delete window.__mcp_trace_start;
            return 'cleaned';
        })()"#);
    assert(text::occurs(scripts::TRACE_CLEANUP@, "window.__mcp_trace_observer.disconnect();"@)) by {
        reveal_strlit("window.__mcp_trace_observer.disconnect();");
        reveal_with_fuel(text::stands_from, 43);
        text::lemma_stands(scripts::TRACE_CLEANUP@, "window.__mcp_trace_observer.disconnect();"@, 54);
    }
    assert(text::occurs(scripts::TRACE_CLEANUP@, "clearInterval(window.__mcp_trace_url_check);"@)) by {
        reveal_strlit("clearInterval(window.__mcp_trace_url_check);");
        reveal_with_fuel(text::stands_from, 46);
        text::lemma_stands(scripts::TRACE_CLEANUP@, "clearInterval(window.__mcp_trace_url_check);"@, 142);
    }
    assert(text::occurs(scripts::TRACE_CLEANUP@, "delete window.__mcp_trace;"@)) by {
        reveal_strlit("delete window.__mcp_trace;");
        reveal_with_fuel(text::stands_from, 28);
        text::lemma_stands(scripts::TRACE_CLEANUP@, "delete window.__mcp_trace;"@, 199);
    }
    assert(text::occurs(scripts::TRACE_CLEANUP@, "delete window.__mcp_trace_start;"@)) by {
        reveal_strlit("delete window.__mcp_trace_start;");
        reveal_with_fuel(text::stands_from, 34);
        text::lemma_stands(scripts::TRACE_CLEANUP@, "delete window.__mcp_trace_start;"@, 238);
    }
}

} // verus!
