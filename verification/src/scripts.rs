//! The game's dialogue scripts: the lamp, the first meeting with the ghost
//! companion, the two persona-customization conversations, the returning
//! conversation, and the firebolt lesson. Each constructor returns a script
//! tree whose exact shape is fixed by the spec functions below; the runner
//! in `script` executes it per the step interpreter there.

use vstd::prelude::*;

use crate::dialogue::PortraitOrientation;
use crate::game::{GhostClass, PlayerClass, Portrait, TextPiece, TextPieceV};
use crate::script::{
    branches_new, branches_push, node_view, node_views, script_new, script_push, Node, NodeV,
    Script,
};
use crate::world::Entity;

verus! {

/// A plain confirm-gated line.
pub open spec fn line_v(s: Seq<char>) -> NodeV {
    NodeV::Line { text: seq![TextPieceV::Lit(s)], auto: false }
}

/// A plain line that auto-advances once fully revealed.
pub open spec fn line_auto_v(s: Seq<char>) -> NodeV {
    NodeV::Line { text: seq![TextPieceV::Lit(s)], auto: true }
}

/// Maribelle's portrait, on the right of the box.
pub open spec fn portrait_m_v() -> NodeV {
    NodeV::Portrait(Some((Portrait::Maribelle, PortraitOrientation::Right)))
}

/// The companion's portrait, on the left of the box.
pub open spec fn portrait_g_v() -> NodeV {
    NodeV::Portrait(Some((Portrait::Companion, PortraitOrientation::Left)))
}

/// A literal text piece.
fn lit(s: &str) -> (r: TextPiece)
    ensures
        r@ == TextPieceV::Lit(s@),
{
    TextPiece::Lit(s.to_owned())
}

/// A plain line that waits for confirm.
fn line(s: &str) -> (r: Node)
    ensures
        node_view(r) == line_v(s@),
{
    let r = Node::Line { text: vec![lit(s)], auto: false };
    proof {
        assert(node_view(r) =~~= line_v(s@));
    }
    r
}

/// A plain line that auto-advances once fully revealed.
fn line_auto(s: &str) -> (r: Node)
    ensures
        node_view(r) == line_auto_v(s@),
{
    let r = Node::Line { text: vec![lit(s)], auto: true };
    proof {
        assert(node_view(r) =~~= line_auto_v(s@));
    }
    r
}

/// Maribelle's portrait, on the right of the box.
fn portrait_m() -> (r: Node)
    ensures
        node_view(r) == portrait_m_v(),
{
    Node::Portrait(Some((Portrait::Maribelle, PortraitOrientation::Right)))
}

/// The companion's portrait, on the left of the box.
fn portrait_g() -> (r: Node)
    ensures
        node_view(r) == portrait_g_v(),
{
    Node::Portrait(Some((Portrait::Companion, PortraitOrientation::Left)))
}

/// One choice-list entry.
fn opt(s: &str) -> (r: String)
    ensures
        r@ == s@,
{
    s.to_owned()
}

/// Examining the lamp: Maribelle's portrait, two confirm-gated lines in
/// order, then the box closes.
pub open spec fn lamp_script() -> Seq<NodeV> {
    seq![
        portrait_m_v(),
        line_v("IT'S A LAMP."@),
        line_v("I WISH IT WERE A BIT BRIGHTER..."@),
        NodeV::EndDialogue,
    ]
}

/// Build the lamp conversation.
pub fn lamp_dialogue_tree() -> (r: Script)
    ensures
        node_views(r@) == lamp_script(),
{
    let mut v = script_new();
    script_push(&mut v, portrait_m());
    script_push(&mut v, line("IT'S A LAMP."));
    script_push(&mut v, line("I WISH IT WERE A BIT BRIGHTER..."));
    script_push(&mut v, Node::EndDialogue);
    proof {
        assert(node_views(v@) =~~= lamp_script());
    }
    v
}

/// One branch of the player-persona choice: Maribelle introduces the
/// persona, the companion reacts, and the persona is recorded.
pub open spec fn customize_player_branch_v(m: Seq<char>, g: Seq<char>, c: PlayerClass) -> Seq<
    NodeV,
> {
    seq![portrait_m_v(), line_v(m), portrait_g_v(), line_v(g), NodeV::SetPlayerClass(c)]
}

fn customize_player_branch(m: &str, g: &str, c: PlayerClass) -> (r: Vec<Node>)
    ensures
        node_views(r@) == customize_player_branch_v(m@, g@, c),
{
    let mut v = script_new();
    script_push(&mut v, portrait_m());
    script_push(&mut v, line(m));
    script_push(&mut v, portrait_g());
    script_push(&mut v, line(g));
    script_push(&mut v, Node::SetPlayerClass(c));
    proof {
        assert(node_views(v@) =~~= customize_player_branch_v(m@, g@, c));
    }
    v
}

/// Choosing the player's persona: a three-way choice, the persona-specific
/// exchange, the persona recorded, then the box closes.
pub open spec fn customize_player_script() -> Seq<NodeV> {
    seq![
        NodeV::Choice {
            options: seq!["A WITCH"@, "A PRINCESS"@, "A KNIGHT"@],
            branches: seq![
                customize_player_branch_v(
                    "I AM THE GREAT WITCH, MARIBELLE.\nYOU ARE A SERVANT I HAVE CONJURED."@,
                    "WOW! YOU CREATED ME?\nYOUR MAGIC IS REALLY POWERFUL!"@,
                    PlayerClass::Witch,
                ),
                customize_player_branch_v(
                    "I AM THE CROWN PRINCESS, MARIBELLE.\nYOU ARE MY LOYAL SUBJECT."@,
                    "THE PRINCESS? WHAT AN HONOR!\nYOUR WISH IS MY COMMAND, HIGHNESS!"@,
                    PlayerClass::Princess,
                ),
                customize_player_branch_v(
                    "I AM THE QUESTING KNIGHT, MARIBELLE.\nWOULD YOU LIKE TO BE MY SQUIRE?"@,
                    "OF COURSE!\nI ALWAYS WANTED TO GO QUESTING!"@,
                    PlayerClass::Knight,
                ),
            ],
        },
        NodeV::EndDialogue,
    ]
}

/// Build the player-persona conversation.
pub fn ghost_customize_player_class() -> (r: Script)
    ensures
        node_views(r@) == customize_player_script(),
{
    let options = vec![opt("A WITCH"), opt("A PRINCESS"), opt("A KNIGHT")];
    proof {
        assert(crate::dialogue::strings_view(options@) =~= seq![
            "A WITCH"@,
            "A PRINCESS"@,
            "A KNIGHT"@,
        ]);
    }
    let mut bs = branches_new();
    branches_push(
        &mut bs,
        customize_player_branch(
            "I AM THE GREAT WITCH, MARIBELLE.\nYOU ARE A SERVANT I HAVE CONJURED.",
            "WOW! YOU CREATED ME?\nYOUR MAGIC IS REALLY POWERFUL!",
            PlayerClass::Witch,
        ),
    );
    branches_push(
        &mut bs,
        customize_player_branch(
            "I AM THE CROWN PRINCESS, MARIBELLE.\nYOU ARE MY LOYAL SUBJECT.",
            "THE PRINCESS? WHAT AN HONOR!\nYOUR WISH IS MY COMMAND, HIGHNESS!",
            PlayerClass::Princess,
        ),
    );
    branches_push(
        &mut bs,
        customize_player_branch(
            "I AM THE QUESTING KNIGHT, MARIBELLE.\nWOULD YOU LIKE TO BE MY SQUIRE?",
            "OF COURSE!\nI ALWAYS WANTED TO GO QUESTING!",
            PlayerClass::Knight,
        ),
    );
    let menu = Node::Choice { options, branches: bs };
    proof {
        assert(node_view(menu)->Choice_options =~= customize_player_script()[0]->Choice_options);
        assert(node_view(menu)->Choice_branches =~= customize_player_script()[0]->Choice_branches);
        assert(node_view(menu) =~~= customize_player_script()[0]);
    }
    let mut v = script_new();
    script_push(&mut v, menu);
    script_push(&mut v, Node::EndDialogue);
    proof {
        assert(node_views(v@) =~~= customize_player_script());
    }
    v
}

/// One branch of the companion-persona choice: Maribelle describes the
/// persona, the companion's reply picks between two lines by the player's
/// stored persona, and the companion persona is recorded.
pub open spec fn customize_ghost_branch_v(
    m: Seq<char>,
    pc: PlayerClass,
    t: Seq<char>,
    e: Seq<char>,
    c: GhostClass,
) -> Seq<NodeV> {
    seq![
        portrait_m_v(),
        line_v(m),
        NodeV::IfPlayerClassIs {
            class: pc,
            then_branch: seq![portrait_g_v(), line_v(t)],
            else_branch: seq![portrait_g_v(), line_v(e)],
        },
        NodeV::SetGhostClass(c),
    ]
}

fn customize_ghost_branch(m: &str, pc: PlayerClass, t: &str, e: &str, c: GhostClass) -> (r: Vec<
    Node,
>)
    ensures
        node_views(r@) == customize_ghost_branch_v(m@, pc, t@, e@, c),
{
    let mut tb = script_new();
    script_push(&mut tb, portrait_g());
    script_push(&mut tb, line(t));
    let mut eb = script_new();
    script_push(&mut eb, portrait_g());
    script_push(&mut eb, line(e));
    let cond = Node::IfPlayerClassIs { class: pc, then_branch: tb, else_branch: eb };
    proof {
        let ghost goal = customize_ghost_branch_v(m@, pc, t@, e@, c)[2];
        assert(node_view(cond)->IfPlayerClassIs_then_branch =~= goal->IfPlayerClassIs_then_branch);
        assert(node_view(cond)->IfPlayerClassIs_else_branch =~= goal->IfPlayerClassIs_else_branch);
        assert(node_view(cond) =~~= goal);
    }
    let mut v = script_new();
    script_push(&mut v, portrait_m());
    script_push(&mut v, line(m));
    script_push(&mut v, cond);
    script_push(&mut v, Node::SetGhostClass(c));
    proof {
        assert(node_views(v@) =~~= customize_ghost_branch_v(m@, pc, t@, e@, c));
    }
    v
}

/// Choosing the companion's persona; the reply also depends on the
/// player's stored persona, and the persona is recorded before the box
/// closes.
pub open spec fn customize_ghost_script() -> Seq<NodeV> {
    seq![
        NodeV::Choice {
            options: seq!["A GHOST"@, "A GOBLIN"@, "A DWARF"@],
            branches: seq![
                customize_ghost_branch_v(
                    "YOU ARE A FORGOTTEN SPIRIT,\nBROUGHT BACK BY POWERFUL NECROMANCY."@,
                    PlayerClass::Witch,
                    "OOOOOO!\nTHANKS FOR BRINGING ME BACK!"@,
                    "OOOOOOO!\nSPOOKY!"@,
                    GhostClass::Spirit,
                ),
                customize_ghost_branch_v(
                    "YOU ARE A GOBLIN TROUBLEMAKER,\nTERRORIZING THE LAND."@,
                    PlayerClass::Knight,
                    "NYEHEHEH!  I HOPE THERE'S\nNO HARD FEELINGS, MS. KNIGHT!"@,
                    "NYEHEHEH!\nSOUNDS FUN!"@,
                    GhostClass::Goblin,
                ),
                customize_ghost_branch_v(
                    "YOU ARE A DWARVEN WARRIOR,\nWISE AND STRONG."@,
                    PlayerClass::Princess,
                    "AYE, MY LIEGE!\nI ALWAYS WANTED TO SAY THAT!"@,
                    "AYE, THAT I AM!\nI HOPE I GET A COOL BEARD!"@,
                    GhostClass::Dwarf,
                ),
            ],
        },
        NodeV::EndDialogue,
    ]
}

/// Build the companion-persona conversation.
pub fn ghost_customize_ghost_class() -> (r: Script)
    ensures
        node_views(r@) == customize_ghost_script(),
{
    let options = vec![opt("A GHOST"), opt("A GOBLIN"), opt("A DWARF")];
    proof {
        assert(crate::dialogue::strings_view(options@) =~= seq![
            "A GHOST"@,
            "A GOBLIN"@,
            "A DWARF"@,
        ]);
    }
    let mut bs = branches_new();
    branches_push(
        &mut bs,
        customize_ghost_branch(
            "YOU ARE A FORGOTTEN SPIRIT,\nBROUGHT BACK BY POWERFUL NECROMANCY.",
            PlayerClass::Witch,
            "OOOOOO!\nTHANKS FOR BRINGING ME BACK!",
            "OOOOOOO!\nSPOOKY!",
            GhostClass::Spirit,
        ),
    );
    branches_push(
        &mut bs,
        customize_ghost_branch(
            "YOU ARE A GOBLIN TROUBLEMAKER,\nTERRORIZING THE LAND.",
            PlayerClass::Knight,
            "NYEHEHEH!  I HOPE THERE'S\nNO HARD FEELINGS, MS. KNIGHT!",
            "NYEHEHEH!\nSOUNDS FUN!",
            GhostClass::Goblin,
        ),
    );
    branches_push(
        &mut bs,
        customize_ghost_branch(
            "YOU ARE A DWARVEN WARRIOR,\nWISE AND STRONG.",
            PlayerClass::Princess,
            "AYE, MY LIEGE!\nI ALWAYS WANTED TO SAY THAT!",
            "AYE, THAT I AM!\nI HOPE I GET A COOL BEARD!",
            GhostClass::Dwarf,
        ),
    );
    let menu = Node::Choice { options, branches: bs };
    proof {
        assert(node_view(menu)->Choice_options =~= customize_ghost_script()[0]->Choice_options);
        assert(node_view(menu)->Choice_branches =~= customize_ghost_script()[0]->Choice_branches);
        assert(node_view(menu) =~~= customize_ghost_script()[0]);
    }
    let mut v = script_new();
    script_push(&mut v, menu);
    script_push(&mut v, Node::EndDialogue);
    proof {
        assert(node_views(v@) =~~= customize_ghost_script());
    }
    v
}

/// Meeting the ghost for the first time: both personas are chosen, the
/// farewell line is rendered from them, and the ghost starts following
/// the player.
pub open spec fn meeting_script(ghost: Entity) -> Seq<NodeV> {
    seq![
        portrait_g_v(),
        line_auto_v("HI THERE!\nWHO ARE YOU?"@),
        NodeV::Sub(customize_player_script()),
        portrait_g_v(),
        line_auto_v("COME TO THINK OF IT...\nWHAT AM I, EXACTLY?"@),
        NodeV::Sub(customize_ghost_script()),
        portrait_g_v(),
        NodeV::Line {
            text: seq![
                TextPieceV::Lit("WELL THEN, "@),
                TextPieceV::PlayerClassName,
                TextPieceV::Lit(" MARIBELLE,\nI'LL FOLLOW YOU! "@),
                TextPieceV::GhostAffectation,
                TextPieceV::Lit("!"@),
            ],
            auto: false,
        },
        NodeV::EndDialogue,
        NodeV::AttachFollow { entity: ghost, max_distance: 64, speed: 1 },
    ]
}

/// Build the first-meeting conversation.
pub fn ghost_meeting(ghost: Entity) -> (r: Script)
    ensures
        node_views(r@) == meeting_script(ghost),
{
    let farewell = Node::Line {
        text: vec![
            lit("WELL THEN, "),
            TextPiece::PlayerClassName,
            lit(" MARIBELLE,\nI'LL FOLLOW YOU! "),
            TextPiece::GhostAffectation,
            lit("!"),
        ],
        auto: false,
    };
    proof {
        assert(node_view(farewell) =~~= meeting_script(ghost)[7]);
    }
    let mut v = script_new();
    script_push(&mut v, portrait_g());
    script_push(&mut v, line_auto("HI THERE!\nWHO ARE YOU?"));
    script_push(&mut v, Node::Sub(ghost_customize_player_class()));
    script_push(&mut v, portrait_g());
    script_push(&mut v, line_auto("COME TO THINK OF IT...\nWHAT AM I, EXACTLY?"));
    script_push(&mut v, Node::Sub(ghost_customize_ghost_class()));
    script_push(&mut v, portrait_g());
    script_push(&mut v, farewell);
    script_push(&mut v, Node::EndDialogue);
    script_push(&mut v, Node::AttachFollow { entity: ghost, max_distance: 64, speed: 1 });
    proof {
        assert(node_views(v@) =~~= meeting_script(ghost));
    }
    v
}

/// The companion's line returning to the top-level menu.
pub open spec fn back_line_v() -> NodeV {
    line_auto_v("IS THERE ANYTHING ELSE\nYOU WANT TO TALK ABOUT?"@)
}

/// The "US" branch of the returning conversation: a nested choice between
/// dropping the topic and re-running either customization.
pub open spec fn after_us_branch_v() -> Seq<NodeV> {
    seq![
        line_auto_v("WHICH OF US DO YOU WANT\nTO TALK ABOUT?"@),
        NodeV::Choice {
            options: seq!["NEVERMIND"@, "ME"@, "YOU"@],
            branches: seq![
                seq![line_auto_v("OH, OKAY!\nWAS THERE ANYTHING ELSE?"@)],
                seq![
                    portrait_m_v(),
                    line_v("I WANT TO BE SOMEONE DIFFERENT."@),
                    portrait_g_v(),
                    line_auto_v("OKAY THEN!\nWHO ARE YOU?"@),
                    NodeV::Sub(customize_player_script()),
                    portrait_g_v(),
                    back_line_v(),
                ],
                seq![
                    portrait_m_v(),
                    line_v("I WANT YOU TO BE SOMEONE ELSE."@),
                    portrait_g_v(),
                    line_v("COOL!\nA CHANGE IS ALWAYS NICE."@),
                    line_auto_v("UMM... WHAT AM I, EXACTLY?"@),
                    NodeV::Sub(customize_ghost_script()),
                    portrait_g_v(),
                    back_line_v(),
                ],
            ],
        },
    ]
}

/// Talking to the ghost again: a menu loop that only the "NOTHING" choice
/// leaves (closing the box on the way out); the other choices run their
/// conversation and return to the menu.
pub open spec fn after_script() -> Seq<NodeV> {
    seq![
        portrait_g_v(),
        NodeV::Line {
            text: seq![
                TextPieceV::Lit("ANYTHING YOU WANT TO TALK ABOUT,\n"@),
                TextPieceV::PlayerTitle,
                TextPieceV::Lit("?"@),
            ],
            auto: true,
        },
        NodeV::Loop(
            seq![
                NodeV::Choice {
                    options: seq!["NOTHING"@, "US"@, "FIREBOLT"@],
                    branches: seq![
                        seq![
                            line_v(
                                "THAT'S OKAY.  LET ME KNOW\nIF THERE'S ANYTHING YOU WANT TO CHANGE!"@,
                            ),
                            NodeV::EndDialogue,
                            NodeV::ExitLoop,
                        ],
                        after_us_branch_v(),
                        seq![NodeV::Sub(firebolt_script()), portrait_g_v(), back_line_v()],
                    ],
                },
            ],
        ),
    ]
}

/// Build the companion's line returning to the top-level menu.
fn back_line() -> (r: Node)
    ensures
        node_view(r) == back_line_v(),
{
    line_auto("IS THERE ANYTHING ELSE\nYOU WANT TO TALK ABOUT?")
}

/// Build the "US" branch of the returning conversation.
fn after_us_branch() -> (r: Vec<Node>)
    ensures
        node_views(r@) == after_us_branch_v(),
{
    let options = vec![opt("NEVERMIND"), opt("ME"), opt("YOU")];
    proof {
        assert(crate::dialogue::strings_view(options@) =~= seq!["NEVERMIND"@, "ME"@, "YOU"@]);
    }
    let mut b0 = script_new();
    script_push(&mut b0, line_auto("OH, OKAY!\nWAS THERE ANYTHING ELSE?"));
    let mut b1 = script_new();
    script_push(&mut b1, portrait_m());
    script_push(&mut b1, line("I WANT TO BE SOMEONE DIFFERENT."));
    script_push(&mut b1, portrait_g());
    script_push(&mut b1, line_auto("OKAY THEN!\nWHO ARE YOU?"));
    script_push(&mut b1, Node::Sub(ghost_customize_player_class()));
    script_push(&mut b1, portrait_g());
    script_push(&mut b1, back_line());
    let mut b2 = script_new();
    script_push(&mut b2, portrait_m());
    script_push(&mut b2, line("I WANT YOU TO BE SOMEONE ELSE."));
    script_push(&mut b2, portrait_g());
    script_push(&mut b2, line("COOL!\nA CHANGE IS ALWAYS NICE."));
    script_push(&mut b2, line_auto("UMM... WHAT AM I, EXACTLY?"));
    script_push(&mut b2, Node::Sub(ghost_customize_ghost_class()));
    script_push(&mut b2, portrait_g());
    script_push(&mut b2, back_line());
    let ghost menu_goal = after_us_branch_v()[1];
    proof {
        assert(node_views(b0@) =~= menu_goal->Choice_branches[0]);
        assert(node_views(b1@) =~= menu_goal->Choice_branches[1]);
        assert(node_views(b2@) =~= menu_goal->Choice_branches[2]);
    }
    let mut bs = branches_new();
    branches_push(&mut bs, b0);
    branches_push(&mut bs, b1);
    branches_push(&mut bs, b2);
    let menu = Node::Choice { options, branches: bs };
    proof {
        assert(node_view(menu)->Choice_options =~= menu_goal->Choice_options);
        assert(node_view(menu)->Choice_branches =~= menu_goal->Choice_branches);
        assert(node_view(menu) =~~= menu_goal);
    }
    let mut v = script_new();
    script_push(&mut v, line_auto("WHICH OF US DO YOU WANT\nTO TALK ABOUT?"));
    script_push(&mut v, menu);
    proof {
        assert(node_views(v@) =~~= after_us_branch_v());
    }
    v
}

/// Build the returning conversation.
pub fn ghost_after() -> (r: Script)
    ensures
        node_views(r@) == after_script(),
{
    let greeting = Node::Line {
        text: vec![
            lit("ANYTHING YOU WANT TO TALK ABOUT,\n"),
            TextPiece::PlayerTitle,
            lit("?"),
        ],
        auto: true,
    };
    proof {
        assert(node_view(greeting) =~~= after_script()[1]);
    }
    let options = vec![opt("NOTHING"), opt("US"), opt("FIREBOLT")];
    proof {
        assert(crate::dialogue::strings_view(options@) =~= seq!["NOTHING"@, "US"@, "FIREBOLT"@]);
    }
    let mut b0 = script_new();
    script_push(
        &mut b0,
        line("THAT'S OKAY.  LET ME KNOW\nIF THERE'S ANYTHING YOU WANT TO CHANGE!"),
    );
    script_push(&mut b0, Node::EndDialogue);
    script_push(&mut b0, Node::ExitLoop);
    let mut b2 = script_new();
    script_push(&mut b2, Node::Sub(firebolt_dialogue_tree()));
    script_push(&mut b2, portrait_g());
    script_push(&mut b2, back_line());
    let ghost menu_goal = after_script()[2]->Loop_0[0];
    proof {
        assert(node_views(b0@) =~= menu_goal->Choice_branches[0]);
        assert(node_views(b2@) =~= menu_goal->Choice_branches[2]);
    }
    let mut bs = branches_new();
    branches_push(&mut bs, b0);
    branches_push(&mut bs, after_us_branch());
    branches_push(&mut bs, b2);
    let menu = Node::Choice { options, branches: bs };
    proof {
        assert(node_view(menu)->Choice_options =~= menu_goal->Choice_options);
        assert(node_view(menu)->Choice_branches =~= menu_goal->Choice_branches);
        assert(node_view(menu) =~~= menu_goal);
    }
    let mut body = script_new();
    script_push(&mut body, menu);
    let looped = Node::Loop(body);
    proof {
        assert(node_view(looped)->Loop_0 =~= after_script()[2]->Loop_0);
        assert(node_view(looped) =~~= after_script()[2]);
    }
    let mut v = script_new();
    script_push(&mut v, portrait_g());
    script_push(&mut v, greeting);
    script_push(&mut v, looped);
    proof {
        assert(node_views(v@) =~~= after_script());
    }
    v
}

/// The closing summary line of the firebolt lesson for one strength and
/// cost pick.
pub open spec fn summary_line_v(ss: Seq<char>, cs: Seq<char>) -> NodeV {
    NodeV::Line {
        text: seq![
            TextPieceV::Lit("SO FIREBOLT IS "@),
            TextPieceV::Lit(ss),
            TextPieceV::Lit(" SPELL THAT\nCOSTS "@),
            TextPieceV::Lit(cs),
            TextPieceV::Lit(" MANA. ARE YOU SURE?"@),
        ],
        auto: false,
    }
}

/// The closing confirmation of the firebolt lesson: "YES" leaves the
/// lesson loop; "ACTUALLY..." restarts the questionnaire.
pub open spec fn summary_choice_v() -> NodeV {
    NodeV::Choice {
        options: seq!["YES"@, "ACTUALLY..."@],
        branches: seq![
            seq![line_v("GREAT! REMEMBER,\nYOU CAN ALWAYS CHANGE YOUR MIND!"@), NodeV::ExitLoop],
            seq![
                line_v("OH, WANNA GO OVER IT AGAIN?\nTHAT'S OKAY!"@),
                line_v("SO THIS SPELL IS CALLED FIREBOLT!\nHOW STRONG IS IT?"@),
            ],
        ],
    }
}

/// One cost branch of the firebolt lesson: Maribelle's answer, the
/// companion's reaction for the already-picked strength, the summary line
/// and the confirmation.
pub open spec fn firebolt_cost_branch_v(
    m: Seq<char>,
    reaction: NodeV,
    ss: Seq<char>,
    cs: Seq<char>,
) -> Seq<NodeV> {
    seq![
        portrait_m_v(),
        line_v(m),
        portrait_g_v(),
        reaction,
        summary_line_v(ss, cs),
        summary_choice_v(),
    ]
}

/// The cost question for one strength pick.
pub open spec fn firebolt_cost_choice_v(
    reaction_lots: NodeV,
    reaction_some: NodeV,
    reaction_cheap: NodeV,
    ss: Seq<char>,
) -> NodeV {
    NodeV::Choice {
        options: seq!["LOTS OF MANA"@, "NOT TOO MUCH"@, "BARELY ANY"@],
        branches: seq![
            firebolt_cost_branch_v(
                "TONS.\nONLY THE MOST POWERFUL CAN WIELD IT."@,
                reaction_lots,
                ss,
                "A LOT OF"@,
            ),
            firebolt_cost_branch_v(
                "NOT TOO MUCH.\nI CAN HANDLE IT, EASY."@,
                reaction_some,
                ss,
                "SOME"@,
            ),
            firebolt_cost_branch_v(
                "IT'S SUPER CHEAP.\nI CAN CAST IT ALL DAY."@,
                reaction_cheap,
                ss,
                "BARELY ANY"@,
            ),
        ],
    }
}

/// One strength branch of the firebolt lesson: Maribelle's answer, the
/// companion's reaction, the question about cost, and the cost choice.
pub open spec fn firebolt_strength_branch_v(
    m: Seq<char>,
    reaction: NodeV,
    ask: Seq<char>,
    cost: NodeV,
) -> Seq<NodeV> {
    seq![portrait_m_v(), line_v(m), portrait_g_v(), reaction, line_v(ask), cost]
}

/// The companion's templated reaction naming the player's persona.
pub open spec fn powerful_line_v() -> NodeV {
    NodeV::Line {
        text: seq![
            TextPieceV::Lit("WOW! THAT'S SO COOL!\nYOU MUST BE A POWERFUL "@),
            TextPieceV::PlayerClassName,
            TextPieceV::Lit("!"@),
        ],
        auto: false,
    }
}

/// The companion's templated reaction to a strong spell with a high cost.
pub open spec fn being_hard_line_v() -> NodeV {
    NodeV::Line {
        text: seq![
            TextPieceV::Lit("WOW. BEING A "@),
            TextPieceV::PlayerClassName,
            TextPieceV::Lit(" IS HARD...\nYOU'RE SO COOL!"@),
        ],
        auto: false,
    }
}

/// Teaching the ghost about the firebolt spell: strength and mana cost are
/// picked (and can be revised until "YES"), then the lesson closes.
pub open spec fn firebolt_script() -> Seq<NodeV> {
    seq![
        portrait_g_v(),
        line_auto_v("WOW!  SO THIS SPELL IS CALLED FIREBOLT!\nHOW STRONG IS IT?"@),
        NodeV::Loop(
            seq![
                NodeV::Choice {
                    options: seq!["VERY STRONG"@, "IT'S OK"@, "IT'S WEAK"@],
                    branches: seq![
                        firebolt_strength_branch_v(
                            "IT'S SUPER STRONG.\nIT COULD PROBABLY KILL A DRAGON."@,
                            powerful_line_v(),
                            "SINCE IT'S SO STRONG,\nHOW MUCH MANA DOES IT COST?"@,
                            firebolt_cost_choice_v(
                                line_v("WHOA. THAT'S ONLY FITTING\nFOR SUCH A POWERFUL SPELL!"@),
                                line_v("SUCH AN EFFICIENT SPELL!\nYOU'RE SO SMART!"@),
                                line_v(
                                    "WOW... IS THAT THE STRONGEST SPELL?\nTHAT'S AMAZING! THIS'LL BE A BREEZE!"@,
                                ),
                                "A VERY STRONG"@,
                            ),
                        ),
                        firebolt_strength_branch_v(
                            "IT'S NOTHING SPECIAL.\nAN EVERYDAY SPELL FOR ME."@,
                            line_v("THAT'S NEAT!\nI BET YOU STUDIED HARD TO LEARN IT."@),
                            "SO SINCE IT'S AVERAGE STRENGTH,\nHOW MUCH MANA DOES IT COST?"@,
                            firebolt_cost_choice_v(
                                being_hard_line_v(),
                                line_v("THAT'S A GREAT SPELL TO START WITH.\nGOOD THINKING!"@),
                                line_v("THAT'S GREAT! WE CAN GO\nON A WHILE WITHOUT RESTING!"@),
                                "A GOOD"@,
                            ),
                        ),
                        firebolt_strength_branch_v(
                            "IT'S SUPER WEAK.\nI'M STILL LEARNING BETTER SPELLS..."@,
                            line_v("AW, THAT'S OKAY.\nI BET YOU'LL GET STRONGER IN NO TIME!"@),
                            "SO SINCE IT'S PRETTY WEAK,\nHOW MUCH MANA DOES IT COST?"@,
                            firebolt_cost_choice_v(
                                line_v("WOW, THAT MUCH?\nMAYBE THIS SPELL ISN'T SO GOOD..."@),
                                line_v("IT SOUNDS HARD TO USE,\nBUT I BET YOU'LL DO GREAT!"@),
                                line_v("THAT MAKES SENSE.\nIT'S GREAT TO HAVE OPTIONS!"@),
                                "A WEAK"@,
                            ),
                        ),
                    ],
                },
            ],
        ),
        NodeV::EndDialogue,
    ]
}

/// Build the closing summary line for one strength and cost pick.
fn summary_line(ss: &str, cs: &str) -> (r: Node)
    ensures
        node_view(r) == summary_line_v(ss@, cs@),
{
    let r = Node::Line {
        text: vec![
            lit("SO FIREBOLT IS "),
            lit(ss),
            lit(" SPELL THAT\nCOSTS "),
            lit(cs),
            lit(" MANA. ARE YOU SURE?"),
        ],
        auto: false,
    };
    proof {
        assert(node_view(r) =~~= summary_line_v(ss@, cs@));
    }
    r
}

/// Build the closing confirmation of the firebolt lesson.
fn summary_choice() -> (r: Node)
    ensures
        node_view(r) == summary_choice_v(),
{
    let options = vec![opt("YES"), opt("ACTUALLY...")];
    proof {
        assert(crate::dialogue::strings_view(options@) =~= seq!["YES"@, "ACTUALLY..."@]);
    }
    let mut b0 = script_new();
    script_push(&mut b0, line("GREAT! REMEMBER,\nYOU CAN ALWAYS CHANGE YOUR MIND!"));
    script_push(&mut b0, Node::ExitLoop);
    let mut b1 = script_new();
    script_push(&mut b1, line("OH, WANNA GO OVER IT AGAIN?\nTHAT'S OKAY!"));
    script_push(&mut b1, line("SO THIS SPELL IS CALLED FIREBOLT!\nHOW STRONG IS IT?"));
    proof {
        assert(node_views(b0@) =~= seq![
            line_v("GREAT! REMEMBER,\nYOU CAN ALWAYS CHANGE YOUR MIND!"@),
            NodeV::ExitLoop,
        ]);
        assert(node_views(b1@) =~= seq![
            line_v("OH, WANNA GO OVER IT AGAIN?\nTHAT'S OKAY!"@),
            line_v("SO THIS SPELL IS CALLED FIREBOLT!\nHOW STRONG IS IT?"@),
        ]);
    }
    let mut bs = branches_new();
    branches_push(&mut bs, b0);
    branches_push(&mut bs, b1);
    let r = Node::Choice { options, branches: bs };
    proof {
        assert(node_view(r)->Choice_branches =~= summary_choice_v()->Choice_branches);
        assert(node_view(r)->Choice_options =~= summary_choice_v()->Choice_options);
        assert(node_view(r) =~~= summary_choice_v());
    }
    r
}

/// Build one cost branch of the firebolt lesson.
fn firebolt_cost_branch(m_line: &str, reaction: Node, ss: &str, cs: &str) -> (r: Vec<Node>)
    ensures
        node_views(r@) == firebolt_cost_branch_v(m_line@, node_view(reaction), ss@, cs@),
{
    let ghost rv = node_view(reaction);
    let mut v = script_new();
    script_push(&mut v, portrait_m());
    script_push(&mut v, line(m_line));
    script_push(&mut v, portrait_g());
    script_push(&mut v, reaction);
    script_push(&mut v, summary_line(ss, cs));
    script_push(&mut v, summary_choice());
    proof {
        assert(node_views(v@) =~~= firebolt_cost_branch_v(m_line@, rv, ss@, cs@));
    }
    v
}

/// Build the cost question for one strength pick.
fn firebolt_cost_choice(
    reaction_lots: Node,
    reaction_some: Node,
    reaction_cheap: Node,
    ss: &str,
) -> (r: Node)
    ensures
        node_view(r) == firebolt_cost_choice_v(
            node_view(reaction_lots),
            node_view(reaction_some),
            node_view(reaction_cheap),
            ss@,
        ),
{
    let ghost rl = node_view(reaction_lots);
    let ghost rs = node_view(reaction_some);
    let ghost rc = node_view(reaction_cheap);
    let options = vec![opt("LOTS OF MANA"), opt("NOT TOO MUCH"), opt("BARELY ANY")];
    proof {
        assert(crate::dialogue::strings_view(options@) =~= seq![
            "LOTS OF MANA"@,
            "NOT TOO MUCH"@,
            "BARELY ANY"@,
        ]);
    }
    let mut bs = branches_new();
    branches_push(
        &mut bs,
        firebolt_cost_branch(
            "TONS.\nONLY THE MOST POWERFUL CAN WIELD IT.",
            reaction_lots,
            ss,
            "A LOT OF",
        ),
    );
    branches_push(
        &mut bs,
        firebolt_cost_branch("NOT TOO MUCH.\nI CAN HANDLE IT, EASY.", reaction_some, ss, "SOME"),
    );
    branches_push(
        &mut bs,
        firebolt_cost_branch(
            "IT'S SUPER CHEAP.\nI CAN CAST IT ALL DAY.",
            reaction_cheap,
            ss,
            "BARELY ANY",
        ),
    );
    let r = Node::Choice { options, branches: bs };
    proof {
        let ghost goal = firebolt_cost_choice_v(rl, rs, rc, ss@);
        assert(node_view(r)->Choice_options =~= goal->Choice_options);
        assert(node_view(r)->Choice_branches =~= goal->Choice_branches);
        assert(node_view(r) =~~= goal);
    }
    r
}

/// Build one strength branch of the firebolt lesson.
fn firebolt_strength_branch(m_line: &str, reaction: Node, ask: &str, cost: Node) -> (r: Vec<Node>)
    ensures
        node_views(r@) == firebolt_strength_branch_v(
            m_line@,
            node_view(reaction),
            ask@,
            node_view(cost),
        ),
{
    let ghost rv = node_view(reaction);
    let ghost cv = node_view(cost);
    let mut v = script_new();
    script_push(&mut v, portrait_m());
    script_push(&mut v, line(m_line));
    script_push(&mut v, portrait_g());
    script_push(&mut v, reaction);
    script_push(&mut v, line(ask));
    script_push(&mut v, cost);
    proof {
        assert(node_views(v@) =~~= firebolt_strength_branch_v(m_line@, rv, ask@, cv));
    }
    v
}

/// Build the firebolt lesson.
pub fn firebolt_dialogue_tree() -> (r: Script)
    ensures
        node_views(r@) == firebolt_script(),
{
    let powerful = Node::Line {
        text: vec![
            lit("WOW! THAT'S SO COOL!\nYOU MUST BE A POWERFUL "),
            TextPiece::PlayerClassName,
            lit("!"),
        ],
        auto: false,
    };
    proof {
        assert(node_view(powerful) =~~= powerful_line_v());
    }
    let being_hard = Node::Line {
        text: vec![
            lit("WOW. BEING A "),
            TextPiece::PlayerClassName,
            lit(" IS HARD...\nYOU'RE SO COOL!"),
        ],
        auto: false,
    };
    proof {
        assert(node_view(being_hard) =~~= being_hard_line_v());
    }
    let options = vec![opt("VERY STRONG"), opt("IT'S OK"), opt("IT'S WEAK")];
    proof {
        assert(crate::dialogue::strings_view(options@) =~= seq![
            "VERY STRONG"@,
            "IT'S OK"@,
            "IT'S WEAK"@,
        ]);
    }
    let mut bs = branches_new();
    branches_push(
        &mut bs,
        firebolt_strength_branch(
            "IT'S SUPER STRONG.\nIT COULD PROBABLY KILL A DRAGON.",
            powerful,
            "SINCE IT'S SO STRONG,\nHOW MUCH MANA DOES IT COST?",
            firebolt_cost_choice(
                line("WHOA. THAT'S ONLY FITTING\nFOR SUCH A POWERFUL SPELL!"),
                line("SUCH AN EFFICIENT SPELL!\nYOU'RE SO SMART!"),
                line("WOW... IS THAT THE STRONGEST SPELL?\nTHAT'S AMAZING! THIS'LL BE A BREEZE!"),
                "A VERY STRONG",
            ),
        ),
    );
    branches_push(
        &mut bs,
        firebolt_strength_branch(
            "IT'S NOTHING SPECIAL.\nAN EVERYDAY SPELL FOR ME.",
            line("THAT'S NEAT!\nI BET YOU STUDIED HARD TO LEARN IT."),
            "SO SINCE IT'S AVERAGE STRENGTH,\nHOW MUCH MANA DOES IT COST?",
            firebolt_cost_choice(
                being_hard,
                line("THAT'S A GREAT SPELL TO START WITH.\nGOOD THINKING!"),
                line("THAT'S GREAT! WE CAN GO\nON A WHILE WITHOUT RESTING!"),
                "A GOOD",
            ),
        ),
    );
    branches_push(
        &mut bs,
        firebolt_strength_branch(
            "IT'S SUPER WEAK.\nI'M STILL LEARNING BETTER SPELLS...",
            line("AW, THAT'S OKAY.\nI BET YOU'LL GET STRONGER IN NO TIME!"),
            "SO SINCE IT'S PRETTY WEAK,\nHOW MUCH MANA DOES IT COST?",
            firebolt_cost_choice(
                line("WOW, THAT MUCH?\nMAYBE THIS SPELL ISN'T SO GOOD..."),
                line("IT SOUNDS HARD TO USE,\nBUT I BET YOU'LL DO GREAT!"),
                line("THAT MAKES SENSE.\nIT'S GREAT TO HAVE OPTIONS!"),
                "A WEAK",
            ),
        ),
    );
    let ghost menu_goal = firebolt_script()[2]->Loop_0[0];
    let menu = Node::Choice { options, branches: bs };
    proof {
        assert(node_view(menu)->Choice_options =~= menu_goal->Choice_options);
        assert(node_view(menu)->Choice_branches =~= menu_goal->Choice_branches);
        assert(node_view(menu) =~~= menu_goal);
    }
    let mut body = script_new();
    script_push(&mut body, menu);
    let looped = Node::Loop(body);
    proof {
        assert(node_view(looped)->Loop_0 =~= firebolt_script()[2]->Loop_0);
        assert(node_view(looped) =~~= firebolt_script()[2]);
    }
    let mut v = script_new();
    script_push(&mut v, portrait_g());
    script_push(&mut v, line_auto("WOW!  SO THIS SPELL IS CALLED FIREBOLT!\nHOW STRONG IS IT?"));
    script_push(&mut v, looped);
    script_push(&mut v, Node::EndDialogue);
    proof {
        assert(node_views(v@) =~~= firebolt_script());
    }
    v
}

} // verus!
