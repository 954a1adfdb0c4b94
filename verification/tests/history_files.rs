use emplace::history::filter_lines;

fn lines_of(text: &str) -> Vec<String> {
    text.lines().map(|l| l.to_string()).collect()
}

#[test]
fn test_bash_history() {
    let bash_history = lines_of(
        "sudo apt install linux-perf-5.6\n\
         cargo flamegraph --example basic\n\
         sudo nvim /etc/sysctl.conf\n\
         fg\n",
    );

    let packages = filter_lines(&bash_history);
    assert_eq!(packages.len(), 1);
}

#[test]
fn test_fish_history() {
    let fish_history = lines_of(
        "- cmd: sudo apt install fzf\n\
         \x20 when: 1575643236\n\
         - cmd: git commit -am \"Commit message\"\n\
         \x20 when: 1575643236\n\
         - cmd: sudo apt -qq install meld\n\
         \x20 when: 1575643236\n",
    );

    let packages = filter_lines(&fish_history);
    assert_eq!(packages.len(), 2);
}

#[test]
fn test_zsh_history() {
    let zsh_history = lines_of(
        ": 1610989542:0;ls\n\
         : 1610989544:0;echo $HISTFILE\n\
         : 1610989549:0;cat  $HISTFILE\n\
         : 1610989572:0;sudo apt install test\n\
         : 1610989577:0;cargo install test\n\
         : 1610989583:0;cat  $HISTFILE\n\
         : 1610989600:0;nvim .zsh_history\n",
    );

    let packages = filter_lines(&zsh_history);
    assert_eq!(packages.len(), 2);
}
