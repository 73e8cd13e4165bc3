use ever_living::search::{ProgramSearch, SearchAction, SearchOutcome};

fn run(mut s: ProgramSearch, outcomes: Vec<SearchOutcome>) -> Vec<SearchAction> {
    let mut actions = Vec::new();
    for o in outcomes {
        actions.push(s.action());
        s = s.advance(&o);
    }
    actions.push(s.action());
    actions
}

fn check(path: &str) -> SearchAction {
    SearchAction::CheckExists { path: path.to_string() }
}

#[test]
fn search_takes_the_first_existing_candidate() {
    let a = run(
        ProgramSearch::new(Some("/custom/el"), None, None),
        vec![SearchOutcome::Exists(false), SearchOutcome::Exists(false), SearchOutcome::Exists(true)],
    );
    assert_eq!(
        a,
        vec![
            check("/custom/el"),
            check("/usr/local/bin/ever-living"),
            check("/opt/homebrew/bin/ever-living"),
            SearchAction::Finish(Ok("/opt/homebrew/bin/ever-living".to_string())),
        ]
    );
}

#[test]
fn search_falls_back_to_which() {
    let mut outs = vec![SearchOutcome::Exists(false), SearchOutcome::Exists(false), SearchOutcome::Exists(false)];
    outs.push(SearchOutcome::WhichOutput(Some("  /somewhere/ever-living\n".to_string())));
    let a = run(ProgramSearch::new(None, None, None), outs);
    assert_eq!(a[3], SearchAction::AskWhich);
    assert_eq!(a[4], SearchAction::Finish(Ok("/somewhere/ever-living".to_string())));
}

#[test]
fn search_reports_a_missing_program() {
    let missing = "找不到 Ever-Living sidecar。请安装 ever-living 命令。".to_string();
    let mut outs = vec![SearchOutcome::Exists(false), SearchOutcome::Exists(false), SearchOutcome::Exists(false)];
    outs.push(SearchOutcome::WhichOutput(Some("\n".to_string())));
    assert_eq!(run(ProgramSearch::new(None, None, None), outs).pop(), Some(SearchAction::Finish(Err(missing.clone()))));
    let mut outs = vec![SearchOutcome::Exists(false), SearchOutcome::Exists(false), SearchOutcome::Exists(false)];
    outs.push(SearchOutcome::WhichOutput(None));
    assert_eq!(run(ProgramSearch::new(None, None, None), outs).pop(), Some(SearchAction::Finish(Err(missing))));
}

#[test]
fn search_keeps_its_place_on_an_unfitting_answer() {
    let a = run(ProgramSearch::new(None, None, None), vec![SearchOutcome::WhichOutput(None)]);
    assert_eq!(a, vec![check("/usr/local/bin/ever-living"), check("/usr/local/bin/ever-living")]);
}
