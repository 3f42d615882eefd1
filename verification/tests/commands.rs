use time_capsule::cli::{Cli, Commands};

#[test]
fn command_shapes_carry_their_arguments() {
    let cli = Cli {
        commands: Commands::Encode {
            input: "diary.txt".to_string(),
            duration: "2 days".to_string(),
            rm: true,
        },
    };
    match cli.commands {
        Commands::Encode { input, duration, rm } => {
            assert_eq!(input, "diary.txt");
            assert_eq!(duration, "2 days");
            assert!(rm);
        }
        _ => panic!("a different command was built"),
    }

    let cli = Cli {
        commands: Commands::DecodeAll {
            input: ".".to_string(),
            no_rm: false,
        },
    };
    assert!(matches!(cli.commands, Commands::DecodeAll { no_rm: false, .. }));

    let test = Commands::TestDuration {
        duration: "1h".to_string(),
    };
    assert!(matches!(test, Commands::TestDuration { .. }));
}
