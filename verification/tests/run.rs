use wikiru_images::{run, Action, Args, DownloadError, Failure, Outcome, Page, Run, Stage, Target};

const OPERATOR_PAGE: &str = "https://arknights.wikiru.jp/?%E3%82%AD%E3%83%A3%E3%83%A9%E3%82%AF%E3%82%BF%E3%83%BC%E4%B8%80%E8%A6%A7";
const VALUABLE_PAGE: &str = "https://arknights.wikiru.jp/?%E3%83%86%E3%83%BC%E3%83%96%E3%83%AB/%E8%B2%B4%E9%87%8D%E5%93%81";

const STUB: &str = "<html><body><table id=\"sortabletable1\"><tr><td>\
                    <img class=\"lazyload\" data-src=\"/img/a.png\" title=\"Amiya\">\
                    <img class=\"lazyload\" data-src=\"img/b.jpg\" title=\"A/B:C\">\
                    </td></tr></table></body></html>";

fn none() -> Args {
    Args { operator: false, valuable: false, material: false, exp_arts: false, soc: false }
}

fn operator() -> Run {
    run(&Args { operator: true, ..none() })
}

fn fetched(html: &str) -> Outcome {
    Outcome::Fetched(Page::new(html.to_string()).unwrap())
}

fn ensure(path: &str) -> Action {
    Action::EnsureDirectory { path: path.to_string() }
}

fn fetch(url: &str) -> Action {
    Action::FetchPage { url: url.to_string() }
}

fn save(url: &str, path: &str) -> Action {
    Action::SaveImage { url: url.to_string(), path: path.to_string() }
}

fn finish(result: Result<(), DownloadError>) -> Action {
    Action::Finish { result }
}

/// Drives a run with the given outcomes and returns every action it asked for,
/// the first one included.
fn drive(mut run: Run, outcomes: Vec<Outcome>) -> Vec<Action> {
    let mut actions = vec![run.action()];
    for outcome in outcomes {
        run = run.step(outcome);
        actions.push(run.action());
    }
    actions
}

#[test]
fn operator_download_saves_both_images_of_the_stub() {
    let actions = drive(
        operator(),
        vec![Outcome::Completed, fetched(STUB), Outcome::Completed, Outcome::Completed],
    );
    assert_eq!(
        actions,
        vec![
            ensure("results/operators"),
            fetch(OPERATOR_PAGE),
            save("https://arknights.wikiru.jp/img/a.png", "results/operators/Amiya.png"),
            save("https://arknights.wikiru.jp/img/b.jpg", "results/operators/A-B-C.jpg"),
            finish(Ok(())),
        ]
    );
}

#[test]
fn running_again_asks_for_the_same_files() {
    let script =
        || vec![Outcome::Completed, fetched(STUB), Outcome::Completed, Outcome::Completed];
    let first = drive(operator(), script());
    let second = drive(operator(), script());
    assert_eq!(first, second);
    assert_eq!(second.last(), Some(&finish(Ok(()))));
}

#[test]
fn failed_page_fetch_is_a_network_error_without_any_save() {
    let actions = drive(
        operator(),
        vec![
            Outcome::Completed,
            Outcome::Failed(Failure::Network),
            Outcome::Completed,
            fetched(STUB),
            Outcome::Completed,
        ],
    );
    assert_eq!(
        actions,
        vec![
            ensure("results/operators"),
            fetch(OPERATOR_PAGE),
            finish(Err(DownloadError::NetworkError)),
            finish(Err(DownloadError::NetworkError)),
            finish(Err(DownloadError::NetworkError)),
            finish(Err(DownloadError::NetworkError)),
        ]
    );
    assert!(!actions.iter().any(|a| matches!(a, Action::SaveImage { .. })));
}

#[test]
fn failed_directory_is_an_io_error_before_any_fetch() {
    let actions = drive(operator(), vec![Outcome::Failed(Failure::Io), Outcome::Completed]);
    assert_eq!(
        actions,
        vec![
            ensure("results/operators"),
            finish(Err(DownloadError::IoError)),
            finish(Err(DownloadError::IoError)),
        ]
    );
}

#[test]
fn failed_save_ends_the_run_with_its_kind() {
    let network = drive(
        operator(),
        vec![Outcome::Completed, fetched(STUB), Outcome::Failed(Failure::Network)],
    );
    assert_eq!(network.last(), Some(&finish(Err(DownloadError::NetworkError))));
    assert_eq!(network.len(), 4);
    let io = drive(
        operator(),
        vec![Outcome::Completed, fetched(STUB), Outcome::Completed, Outcome::Failed(Failure::Io)],
    );
    assert_eq!(
        io,
        vec![
            ensure("results/operators"),
            fetch(OPERATOR_PAGE),
            save("https://arknights.wikiru.jp/img/a.png", "results/operators/Amiya.png"),
            save("https://arknights.wikiru.jp/img/b.jpg", "results/operators/A-B-C.jpg"),
            finish(Err(DownloadError::IoError)),
        ]
    );
}

#[test]
fn no_switch_is_an_empty_run() {
    let run = run(&none());
    assert_eq!(run.stage(), Stage::Done);
    assert_eq!(run.result(), Some(Ok(())));
    assert_eq!(run.completed(), 0);
    assert_eq!(run.action(), finish(Ok(())));
    let run = run.step(Outcome::Completed);
    assert_eq!(run.action(), finish(Ok(())));
}

#[test]
fn category_without_rule_fails_when_its_page_arrives() {
    for (args, target, dir) in [
        (Args { valuable: true, ..none() }, Target::Valuable, "results/valuables"),
        (Args { material: true, ..none() }, Target::Material, "results/materials"),
        (Args { exp_arts: true, ..none() }, Target::ExpArts, "results/exp-arts"),
        (Args { soc: true, ..none() }, Target::Soc, "results/soc"),
    ] {
        let actions = drive(run(&args), vec![Outcome::Completed, fetched(STUB)]);
        assert_eq!(actions.len(), 3);
        assert_eq!(actions[0], ensure(dir));
        assert_eq!(actions[1], fetch(&target.to_config().src_url));
        assert_eq!(actions[2], finish(Err(DownloadError::Unimplemented(target))));
    }
}

#[test]
fn categories_are_handled_one_after_the_other() {
    let both = Args { operator: true, valuable: true, ..none() };
    let actions = drive(
        run(&both),
        vec![
            Outcome::Completed,
            fetched(STUB),
            Outcome::Completed,
            Outcome::Completed,
            Outcome::Completed,
            fetched("<html></html>"),
        ],
    );
    assert_eq!(
        actions,
        vec![
            ensure("results/operators"),
            fetch(OPERATOR_PAGE),
            save("https://arknights.wikiru.jp/img/a.png", "results/operators/Amiya.png"),
            save("https://arknights.wikiru.jp/img/b.jpg", "results/operators/A-B-C.jpg"),
            ensure("results/valuables"),
            fetch(VALUABLE_PAGE),
            finish(Err(DownloadError::Unimplemented(Target::Valuable))),
        ]
    );
}

#[test]
fn failure_of_one_category_keeps_the_next_untouched() {
    let both = Args { operator: true, soc: true, ..none() };
    let mut run = run(&both);
    run = run.step(Outcome::Completed);
    run = run.step(Outcome::Failed(Failure::Network));
    assert_eq!(run.stage(), Stage::Failed(DownloadError::NetworkError));
    assert_eq!(run.completed(), 0);
    assert_eq!(run.result(), Some(Err(DownloadError::NetworkError)));
    run = run.step(Outcome::Completed);
    assert_eq!(run.action(), finish(Err(DownloadError::NetworkError)));
}

#[test]
fn page_without_images_completes_the_category() {
    let mut run = operator();
    assert_eq!(run.stage(), Stage::Pending);
    assert_eq!(run.result(), None);
    run = run.step(Outcome::Completed);
    assert_eq!(run.stage(), Stage::Fetching);
    run = run.step(fetched("<html><body><p>empty</p></body></html>"));
    assert_eq!(run.stage(), Stage::Done);
    assert_eq!(run.completed(), 1);
    assert_eq!(run.result(), Some(Ok(())));
}

#[test]
fn element_without_download_stops_the_run_where_it_stands() {
    let html = "<html><body><div id=\"sortabletable3\">\
                <img class=\"lazyload\" data-src=\"/img/a.png\" title=\"Amiya\">\
                <img class=\"lazyload\" data-src=\"/img/untitled.png\">\
                <img class=\"lazyload\" data-src=\"/img/c.png\" title=\"Later\">\
                </div></body></html>";
    let actions = drive(operator(), vec![Outcome::Completed, fetched(html), Outcome::Completed]);
    assert_eq!(
        actions,
        vec![
            ensure("results/operators"),
            fetch(OPERATOR_PAGE),
            save("https://arknights.wikiru.jp/img/a.png", "results/operators/Amiya.png"),
            finish(Err(DownloadError::MissingAttribute)),
        ]
    );
}

#[test]
fn first_element_without_download_stops_the_run_at_once() {
    let no_extension = "<div id=\"sortabletable1\">\
                        <img class=\"lazyload\" data-src=\"/img/a\" title=\"Amiya\"></div>";
    let actions = drive(operator(), vec![Outcome::Completed, fetched(no_extension)]);
    assert_eq!(actions.last(), Some(&finish(Err(DownloadError::MissingExtension))));
    let no_address = "<div id=\"sortabletable1\">\
                      <img class=\"lazyload\" data-src=\"https://\" title=\"Amiya\"></div>";
    let actions = drive(operator(), vec![Outcome::Completed, fetched(no_address)]);
    assert_eq!(actions.last(), Some(&finish(Err(DownloadError::UrlError))));
}

#[test]
fn outcome_that_answers_nothing_is_ignored() {
    let mut run = operator();
    run = run.step(fetched(STUB));
    assert_eq!(run.stage(), Stage::Pending);
    assert_eq!(run.action(), ensure("results/operators"));
    run = run.step(Outcome::Completed);
    run = run.step(Outcome::Completed);
    assert_eq!(run.stage(), Stage::Fetching);
    assert_eq!(run.action(), fetch(OPERATOR_PAGE));
    run = run.step(fetched(STUB));
    assert_eq!(run.stage(), Stage::Downloading(0));
    run = run.step(fetched(STUB));
    assert_eq!(run.stage(), Stage::Downloading(0));
    run = run.step(Outcome::Completed);
    assert_eq!(run.stage(), Stage::Downloading(1));
    assert_eq!(
        run.action(),
        save("https://arknights.wikiru.jp/img/b.jpg", "results/operators/A-B-C.jpg")
    );
}

#[test]
fn download_plans_every_selected_element() {
    let config = Target::Operator.to_config();
    let plan = config.download(&Page::new(STUB.to_string()).unwrap()).unwrap();
    assert_eq!(plan.len(), 2);
    let first = plan[0].as_ref().unwrap();
    assert_eq!(first.absolute_url, "https://arknights.wikiru.jp/img/a.png");
    assert_eq!(first.destination(&config.tar_dir), "results/operators/Amiya.png");
    let second = plan[1].as_ref().unwrap();
    assert_eq!(second.filename, "A-B-C");
    assert_eq!(second.extension, "jpg");
    assert_eq!(
        Target::Soc.to_config().download(&Page::new(STUB.to_string()).unwrap()),
        Err(DownloadError::Unimplemented(Target::Soc))
    );
}

#[test]
fn run_over_given_configs() {
    let run = Run::new(vec![Target::Material.to_config()]);
    assert_eq!(run.action(), ensure("results/materials"));
    assert_eq!(Run::new(Vec::new()).action(), finish(Ok(())));
}

#[test]
fn fetched_text_becomes_the_page() {
    let mut run = operator();
    run = run.step(Outcome::Completed);
    run = run.step(Outcome::fetched(STUB.to_string()));
    assert_eq!(run.stage(), Stage::Downloading(0));
    assert_eq!(
        run.action(),
        save("https://arknights.wikiru.jp/img/a.png", "results/operators/Amiya.png")
    );
    assert!(matches!(Outcome::fetched(String::new()), Outcome::Fetched(_)));
}
