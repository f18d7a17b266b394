use attest::page::{
    csrf_token_of, examples_from_blocks, examples_of_page, join_texts, lang_menu_from, lang_select,
    latest_submit_url, parse_decimal, parse_seconds_ms, site_url, submit_form_of,
    submit_lang_select, time_limit_from_captures, time_limit_of_page, PageError,
};

const TASK: &str = r#"<html><body>
<div class="col-sm-12"><p>Time Limit: 2 sec / Memory Limit: 1024 MiB</p></div>
<span class="lang-ja">
<div class="part"><h3>入力例 1</h3><pre>3
1 2 3
</pre></div>
<div class="part"><h3>出力例 1</h3><pre>6
</pre></div>
<div class="part"><h3>入力例 2</h3><pre>1
<var>5</var>
</pre></div>
<div class="part"><h3>出力例 2</h3><pre>5
</pre></div>
</span>
<form class="form-horizontal form-code-submit" action="/contests/abc300/submit">
<input name="data.TaskScreenName" value="abc300_a">
<input name="csrf_token" value="tok123">
<select><option>-</option><option value="5001">C++ 20</option><option value="5054">Rust</option></select>
</form>
</body></html>"#;

#[test]
fn samples_of_a_task_page() {
    let ios = examples_of_page(TASK).unwrap();
    assert_eq!(ios.len(), 2);
    assert_eq!(ios[0].input, "3\n1 2 3\n");
    assert_eq!(ios[0].output, "6\n");
    assert_eq!(ios[1].input, "1\n5\n");
    assert_eq!(ios[1].output, "5\n");
}

#[test]
fn page_without_samples_has_no_examples() {
    assert_eq!(examples_of_page("<html><body><p>x</p></body></html>").unwrap().len(), 0);
}

#[test]
fn unpaired_sample_blocks() {
    let blocks = vec![vec!["1\n".to_string()]];
    assert!(matches!(examples_from_blocks(&blocks), Err(PageError::UnpairedSamples)));
    let blocks = vec![
        vec!["1".to_string(), "\n".to_string()],
        vec!["2\n".to_string()],
    ];
    let ios = examples_from_blocks(&blocks).unwrap();
    assert_eq!(ios[0].input, "1\n");
    assert_eq!(ios[0].output, "2\n");
}

#[test]
fn joins_text_nodes() {
    assert_eq!(join_texts(&vec!["a".to_string(), "b c".to_string(), "".to_string()]), "ab c");
    assert_eq!(join_texts(&Vec::new()), "");
}

#[test]
fn time_limit_in_seconds() {
    assert_eq!(time_limit_of_page(TASK), Ok(2000));
}

#[test]
fn time_limit_in_milliseconds() {
    let page = r#"<div class="col-sm-12"><p>Time Limit: 2500 msec / Memory Limit: 256 MB</p></div>"#;
    assert_eq!(time_limit_of_page(page), Ok(2500));
}

#[test]
fn time_limit_missing() {
    assert_eq!(time_limit_of_page("<p>nothing</p>"), Err(PageError::NoTimeLimit));
    let page = r#"<div class="col-sm-12"><p>Memory Limit: 256 MB</p></div>"#;
    assert_eq!(time_limit_of_page(page), Err(PageError::NoTimeLimit));
}

#[test]
fn time_limit_from_captured_text() {
    assert_eq!(time_limit_from_captures(Some("2"), None), Ok(2000));
    assert_eq!(time_limit_from_captures(Some("2.5"), Some("ignored")), Ok(2500));
    assert_eq!(time_limit_from_captures(Some("0.1234"), None), Ok(123));
    assert_eq!(time_limit_from_captures(None, Some("750")), Ok(750));
    assert_eq!(time_limit_from_captures(Some("two"), None), Err(PageError::BadTimeLimit));
    assert_eq!(time_limit_from_captures(None, Some("7x")), Err(PageError::BadTimeLimit));
    assert_eq!(time_limit_from_captures(None, None), Err(PageError::NoTimeLimit));
}

#[test]
fn decimal_numbers() {
    assert_eq!(parse_decimal("0"), Some(0));
    assert_eq!(parse_decimal("1234"), Some(1234));
    assert_eq!(parse_decimal(""), None);
    assert_eq!(parse_decimal("-1"), None);
    assert_eq!(parse_decimal("340282366920938463463374607431768211455"), Some(u128::MAX));
    assert_eq!(parse_decimal("340282366920938463463374607431768211456"), None);
}

#[test]
fn seconds_as_milliseconds() {
    assert_eq!(parse_seconds_ms("3"), Some(3000));
    assert_eq!(parse_seconds_ms("3."), Some(3000));
    assert_eq!(parse_seconds_ms("1.05"), Some(1050));
    assert_eq!(parse_seconds_ms(".5"), None);
    assert_eq!(parse_seconds_ms("1.2.3"), None);
}

#[test]
fn language_menu_of_a_task_page() {
    let menu = lang_select(TASK).unwrap();
    assert_eq!(
        menu,
        vec![
            ("C++ 20".to_string(), "5001".to_string()),
            ("Rust".to_string(), "5054".to_string())
        ]
    );
}

#[test]
fn language_menu_of_a_submit_page() {
    let page = r#"<label for="select-lang">Language</label><div><select>
<option>-</option><option value="1">A</option></select></div>
<select><option>-</option><option value="9">Z</option></select>"#;
    assert_eq!(
        submit_lang_select(page).unwrap(),
        vec![("A".to_string(), "1".to_string())]
    );
}

#[test]
fn language_menu_from_parts() {
    let names = vec![vec!["-".to_string()], vec!["A".to_string()]];
    let values = vec![None, Some("1".to_string())];
    assert_eq!(lang_menu_from(&names, &values).unwrap(), vec![("A".to_string(), "1".to_string())]);
    let values = vec![None, None];
    assert_eq!(lang_menu_from(&names, &values), Err(PageError::MalformedMenu));
    assert_eq!(lang_menu_from(&names, &vec![None]), Err(PageError::MalformedMenu));
    assert_eq!(lang_menu_from(&Vec::new(), &Vec::new()).unwrap().len(), 0);
}

#[test]
fn submit_form_fields() {
    let f = submit_form_of(TASK).unwrap();
    assert_eq!(f.task_screen_name, "abc300_a");
    assert_eq!(f.csrf_token, "tok123");
    assert_eq!(f.action, "https://atcoder.jp/contests/abc300/submit");
    assert_eq!(csrf_token_of(TASK).unwrap(), "tok123");
    assert!(matches!(submit_form_of("<p></p>"), Err(PageError::MissingField)));
}

#[test]
fn newest_contest_submit_page() {
    let archive = r#"<div class="table-responsive"><table><tbody><tr>
<td><span>x</span><a href="/contests/abc400">ABC 400</a></td></tr></tbody></table></div>"#;
    assert_eq!(
        latest_submit_url(archive).unwrap(),
        "https://atcoder.jp/contests/abc400/submit"
    );
    assert_eq!(latest_submit_url("<p></p>"), Err(PageError::MissingField));
    assert_eq!(site_url("/a"), "https://atcoder.jp/a");
}
