//! The base58 text of an address, as `Pubkey::from_str` reads it.

use vstd::prelude::*;

verus! {

/// The value of a character of the base58 alphabet
/// `123456789ABCDEFGHJKLMNPQRSTUVWXYZabcdefghijkmnopqrstuvwxyz`, or `None`
/// for any other character.
pub open spec fn base58_digit(c: char) -> Option<nat> {
    if '1' <= c && c <= '9' {
        Some(((c as int) - ('1' as int)) as nat)
    } else if 'A' <= c && c <= 'H' {
        Some(((c as int) - ('A' as int) + 9) as nat)
    } else if 'J' <= c && c <= 'N' {
        Some(((c as int) - ('J' as int) + 17) as nat)
    } else if 'P' <= c && c <= 'Z' {
        Some(((c as int) - ('P' as int) + 22) as nat)
    } else if 'a' <= c && c <= 'k' {
        Some(((c as int) - ('a' as int) + 33) as nat)
    } else if 'm' <= c && c <= 'z' {
        Some(((c as int) - ('m' as int) + 44) as nat)
    } else {
        None
    }
}

/// The number that the first `k` characters of `s` write as base58 digits,
/// most significant first; `None` where one of them is no base58 digit.
pub open spec fn base58_prefix_value(s: Seq<char>, k: nat) -> Option<nat>
    decreases k,
{
    if k == 0 {
        Some(0)
    } else {
        match (base58_prefix_value(s, (k - 1) as nat), base58_digit(s[k - 1])) {
            (Some(v), Some(d)) => Some(v * 58 + d),
            _ => None,
        }
    }
}

/// The number that the base58 digits `s` write.
pub open spec fn base58_value(s: Seq<char>) -> Option<nat> {
    base58_prefix_value(s, s.len())
}

/// The number of `1`s, the digit zero, that lead `s` from index `i` on.
pub open spec fn leading_ones(s: Seq<char>, i: nat) -> nat
    decreases s.len() - i,
{
    if i < s.len() && s[i as int] == '1' {
        1 + leading_ones(s, i + 1)
    } else {
        0
    }
}

/// The number of bytes that `v` takes without leading zeros.
pub open spec fn byte_len(v: nat) -> nat
    decreases v,
{
    if v == 0 {
        0
    } else {
        1 + byte_len(v / 256)
    }
}

/// The `n` low-order bytes of `v`, most significant first.
pub open spec fn be_bytes(v: nat, n: nat) -> Seq<u8>
    decreases n,
{
    if n == 0 {
        Seq::empty()
    } else {
        be_bytes(v / 256, (n - 1) as nat).push((v % 256) as u8)
    }
}

/// What base58 decoding gives: a zero byte for each leading `1`, then the
/// value's bytes, most significant first, without leading zeros; `None`
/// where a character is no base58 digit.
pub open spec fn base58_decode(s: Seq<char>) -> Option<Seq<u8>> {
    match base58_value(s) {
        Some(v) => Some(Seq::new(leading_ones(s, 0), |i: int| 0u8) + be_bytes(v, byte_len(v))),
        None => None,
    }
}

/// The 32 bytes that `Pubkey::from_str` reads from `s`: a text of at most 44
/// base58 digits that decodes to exactly 32 bytes; `None` otherwise.
pub open spec fn parsed_pubkey(s: Seq<char>) -> Option<Seq<u8>> {
    match base58_decode(s) {
        Some(b) => if s.len() <= 44 && b.len() == 32 {
            Some(b)
        } else {
            None
        },
        None => None,
    }
}


/// The text of the memo program's id.
pub open spec fn memo_program_text() -> Seq<char> {
    seq!['M', 'e', 'm', 'o', 'S', 'q', '4', 'g', 'q', 'A', 'B', 'A', 'X', 'K', 'b', '9', '6', 'q', 'n', 'H', '8', 'T', 'y', 's', 'N', 'c', 'W', 'x', 'M', 'y', 'W', 'C', 'q', 'X', 'g', 'D', 'L', 'G', 'm', 'f', 'c', 'H', 'r']
}

/// The memo program's id.
pub open spec fn memo_program_bytes() -> Seq<u8> {
    seq![5u8, 74, 83, 90, 153, 41, 33, 6, 77, 36, 232, 113, 96, 218, 56, 124, 124, 53, 181, 221, 188, 146, 187, 129, 228, 31, 168, 64, 65, 5, 68, 141]
}

proof fn lemma_memo_value_0()
    ensures
        base58_prefix_value(memo_program_text(), 15) == Some(100678845716835928353799062nat),
{
    let t = memo_program_text();
    assert(base58_prefix_value(t, 0) == Some(0nat));
    assert(t[0] == 'M');
    assert(base58_prefix_value(t, 1) == Some(20nat));
    assert(t[1] == 'e');
    assert(base58_prefix_value(t, 2) == Some(1197nat));
    assert(t[2] == 'm');
    assert(base58_prefix_value(t, 3) == Some(69470nat));
    assert(t[3] == 'o');
    assert(base58_prefix_value(t, 4) == Some(4029306nat));
    assert(t[4] == 'S');
    assert(base58_prefix_value(t, 5) == Some(233699773nat));
    assert(t[5] == 'q');
    assert(base58_prefix_value(t, 6) == Some(13554586882nat));
    assert(t[6] == '4');
    assert(base58_prefix_value(t, 7) == Some(786166039159nat));
    assert(t[7] == 'g');
    assert(base58_prefix_value(t, 8) == Some(45597630271261nat));
    assert(t[8] == 'q');
    assert(base58_prefix_value(t, 9) == Some(2644662555733186nat));
    assert(t[9] == 'A');
    assert(base58_prefix_value(t, 10) == Some(153390428232524797nat));
    assert(t[10] == 'B');
    assert(base58_prefix_value(t, 11) == Some(8896644837486438236nat));
    assert(t[11] == 'A');
    assert(base58_prefix_value(t, 12) == Some(516005400574213417697nat));
    assert(t[12] == 'X');
    assert(base58_prefix_value(t, 13) == Some(29928313233304378226456nat));
    assert(t[13] == 'K');
    assert(base58_prefix_value(t, 14) == Some(1735842167531653937134466nat));
    assert(t[14] == 'b');
    assert(base58_prefix_value(t, 15) == Some(100678845716835928353799062nat));
}

proof fn lemma_memo_value_1()
    requires
        base58_prefix_value(memo_program_text(), 15) == Some(100678845716835928353799062nat),
    ensures
        base58_prefix_value(memo_program_text(), 30) == Some(28468076956250743125980519618125698008870937683368404nat),
{
    let t = memo_program_text();
    assert(t[15] == '9');
    assert(base58_prefix_value(t, 16) == Some(5839373051576483844520345604nat));
    assert(t[16] == '6');
    assert(base58_prefix_value(t, 17) == Some(338683636991436062982180045037nat));
    assert(t[17] == 'q');
    assert(base58_prefix_value(t, 18) == Some(19643650945503291652966442612194nat));
    assert(t[18] == 'n');
    assert(base58_prefix_value(t, 19) == Some(1139331754839190915872053671507297nat));
    assert(t[19] == 'H');
    assert(base58_prefix_value(t, 20) == Some(66081241780673073120579112947423242nat));
    assert(t[20] == '8');
    assert(base58_prefix_value(t, 21) == Some(3832712023279038240993588550950548043nat));
    assert(t[21] == 'T');
    assert(base58_prefix_value(t, 22) == Some(222297297350184217977628135955131786520nat));
    assert(t[22] == 'y');
    assert(base58_prefix_value(t, 23) == Some(12893243246310684642702431885397643618216nat));
    assert(t[23] == 's');
    assert(base58_prefix_value(t, 24) == Some(747808108286019709276741049353063329856578nat));
    assert(t[24] == 'N');
    assert(base58_prefix_value(t, 25) == Some(43372870280589143138050980862477673131681545nat));
    assert(t[25] == 'c');
    assert(base58_prefix_value(t, 26) == Some(2515626476274170302006956890023705041637529645nat));
    assert(t[26] == 'W');
    assert(base58_prefix_value(t, 27) == Some(145906335623901877516403499621374892414976719439nat));
    assert(t[27] == 'x');
    assert(base58_prefix_value(t, 28) == Some(8462567466186308895951402978039743760068649727517nat));
    assert(t[28] == 'M');
    assert(base58_prefix_value(t, 29) == Some(490828913038805915965181372726305138083981684196006nat));
    assert(t[29] == 'y');
    assert(base58_prefix_value(t, 30) == Some(28468076956250743125980519618125698008870937683368404nat));
}

proof fn lemma_memo_value_2()
    requires
        base58_prefix_value(memo_program_text(), 30) == Some(28468076956250743125980519618125698008870937683368404nat),
    ensures
        base58_prefix_value(memo_program_text(), 43) == Some(2392886213181616158119155895008144928703734678198593441007149093687784719501nat),
{
    let t = memo_program_text();
    assert(t[30] == 'W');
    assert(base58_prefix_value(t, 31) == Some(1651148463462543101306870137851290484514514385635367461nat));
    assert(t[31] == 'C');
    assert(base58_prefix_value(t, 32) == Some(95766610880827499875798467995374848101841834366851312749nat));
    assert(t[32] == 'q');
    assert(base58_prefix_value(t, 33) == Some(5554463431087994992796311143731741189906826393277376139490nat));
    assert(t[33] == 'X');
    assert(base58_prefix_value(t, 34) == Some(322158879003103709582186046336440989014595930810087816090450nat));
    assert(t[34] == 'g');
    assert(base58_prefix_value(t, 35) == Some(18685214982180015155766790687513577362846563986985093333246139nat));
    assert(t[35] == 'D');
    assert(base58_prefix_value(t, 36) == Some(1083742468966440879034473859875787487045100711245135413328276074nat));
    assert(t[36] == 'L');
    assert(base58_prefix_value(t, 37) == Some(62857063200053570983999483872795674248615841252217853973040012311nat));
    assert(t[37] == 'G');
    assert(base58_prefix_value(t, 38) == Some(3645709665603107117071970064622149106419718792628635530436320714053nat));
    assert(t[38] == 'm');
    assert(base58_prefix_value(t, 39) == Some(211451160604980212790174263748084648172343689972460860765306601415118nat));
    assert(t[39] == 'f');
    assert(base58_prefix_value(t, 40) == Some(12264167315088852341830107297388909593995934018402729924387782882076882nat));
    assert(t[40] == 'c');
    assert(base58_prefix_value(t, 41) == Some(711321704275153435826146223248556756451764173067358335614491407160459191nat));
    assert(t[41] == 'H');
    assert(base58_prefix_value(t, 42) == Some(41256658847958899277916480948416291874202322037906783465640501615306633094nat));
    assert(t[42] == 'r');
    assert(base58_prefix_value(t, 43) == Some(2392886213181616158119155895008144928703734678198593441007149093687784719501nat));
}

proof fn lemma_memo_value()
    ensures
        base58_value(memo_program_text()) == Some(2392886213181616158119155895008144928703734678198593441007149093687784719501nat),
{
    lemma_memo_value_0();
    lemma_memo_value_1();
    lemma_memo_value_2();
}

proof fn lemma_memo_bytes()
    ensures
        byte_len(2392886213181616158119155895008144928703734678198593441007149093687784719501nat) == 32,
        be_bytes(2392886213181616158119155895008144928703734678198593441007149093687784719501nat, 32) =~= memo_program_bytes(),
{
    assert(byte_len(0nat) == 0);
    assert(byte_len(5nat) == 1);
    assert(byte_len(1354nat) == 2);
    assert(byte_len(346707nat) == 3);
    assert(byte_len(88757082nat) == 4);
    assert(byte_len(22721813145nat) == 5);
    assert(byte_len(5816784165161nat) == 6);
    assert(byte_len(1489096746281249nat) == 7);
    assert(byte_len(381208767047999750nat) == 8);
    assert(byte_len(97589444364287936077nat) == 9);
    assert(byte_len(24982897757257711635748nat) == 10);
    assert(byte_len(6395621825857974178751720nat) == 11);
    assert(byte_len(1637279187419641389760440433nat) == 12);
    assert(byte_len(419143471979428195778672750944nat) == 13);
    assert(byte_len(107300728826733618119340224241882nat) == 14);
    assert(byte_len(27468986579643806238551097405921848nat) == 15);
    assert(byte_len(7032060564388814397069080935915993212nat) == 16);
    assert(byte_len(1800207504483536485649684719594494262396nat) == 17);
    assert(byte_len(460853121147785340326319288216190531173429nat) == 18);
    assert(byte_len(117978399013833047123537737783344775980398005nat) == 19);
    assert(byte_len(30202470147541260063625660872536262650981889501nat) == 20);
    assert(byte_len(7731832357770562576288169183369283238651363712444nat) == 21);
    assert(byte_len(1979349083589264019529771310942536509094749110385810nat) == 22);
    assert(byte_len(506713365398851588999621455601289346328255772258767547nat) == 23);
    assert(byte_len(129718621542106006783903092633930072660033477698244492161nat) == 24);
    assert(byte_len(33207967114779137736679191714286098600968570290750589993444nat) == 25);
    assert(byte_len(8501239581383459260589873078857241241847953994432151038321695nat) == 26);
    assert(byte_len(2176317332834165570711007508187453757913076222574630665810354088nat) == 27);
    assert(byte_len(557137237205546386102017922095988162025747512979105450447450646592nat) == 28);
    assert(byte_len(142627132724619874842116588056572969478591363322650995314547365527617nat) == 29);
    assert(byte_len(36512545977502687959581846542482680186519389010598654800524125575069957nat) == 30);
    assert(byte_len(9347211770240688117652952714875566127748963586713255628934176147217909060nat) == 31);
    assert(byte_len(2392886213181616158119155895008144928703734678198593441007149093687784719501nat) == 32);
    assert(be_bytes(0nat, 0) == Seq::<u8>::empty());
    assert(be_bytes(5nat, 1) == be_bytes(0nat, 0).push(5u8));
    assert(be_bytes(1354nat, 2) == be_bytes(5nat, 1).push(74u8));
    assert(be_bytes(346707nat, 3) == be_bytes(1354nat, 2).push(83u8));
    assert(be_bytes(88757082nat, 4) == be_bytes(346707nat, 3).push(90u8));
    assert(be_bytes(22721813145nat, 5) == be_bytes(88757082nat, 4).push(153u8));
    assert(be_bytes(5816784165161nat, 6) == be_bytes(22721813145nat, 5).push(41u8));
    assert(be_bytes(1489096746281249nat, 7) == be_bytes(5816784165161nat, 6).push(33u8));
    assert(be_bytes(381208767047999750nat, 8) == be_bytes(1489096746281249nat, 7).push(6u8));
    assert(be_bytes(97589444364287936077nat, 9) == be_bytes(381208767047999750nat, 8).push(77u8));
    assert(be_bytes(24982897757257711635748nat, 10) == be_bytes(97589444364287936077nat, 9).push(36u8));
    assert(be_bytes(6395621825857974178751720nat, 11) == be_bytes(24982897757257711635748nat, 10).push(232u8));
    assert(be_bytes(1637279187419641389760440433nat, 12) == be_bytes(6395621825857974178751720nat, 11).push(113u8));
    assert(be_bytes(419143471979428195778672750944nat, 13) == be_bytes(1637279187419641389760440433nat, 12).push(96u8));
    assert(be_bytes(107300728826733618119340224241882nat, 14) == be_bytes(419143471979428195778672750944nat, 13).push(218u8));
    assert(be_bytes(27468986579643806238551097405921848nat, 15) == be_bytes(107300728826733618119340224241882nat, 14).push(56u8));
    assert(be_bytes(7032060564388814397069080935915993212nat, 16) == be_bytes(27468986579643806238551097405921848nat, 15).push(124u8));
    assert(be_bytes(1800207504483536485649684719594494262396nat, 17) == be_bytes(7032060564388814397069080935915993212nat, 16).push(124u8));
    assert(be_bytes(460853121147785340326319288216190531173429nat, 18) == be_bytes(1800207504483536485649684719594494262396nat, 17).push(53u8));
    assert(be_bytes(117978399013833047123537737783344775980398005nat, 19) == be_bytes(460853121147785340326319288216190531173429nat, 18).push(181u8));
    assert(be_bytes(30202470147541260063625660872536262650981889501nat, 20) == be_bytes(117978399013833047123537737783344775980398005nat, 19).push(221u8));
    assert(be_bytes(7731832357770562576288169183369283238651363712444nat, 21) == be_bytes(30202470147541260063625660872536262650981889501nat, 20).push(188u8));
    assert(be_bytes(1979349083589264019529771310942536509094749110385810nat, 22) == be_bytes(7731832357770562576288169183369283238651363712444nat, 21).push(146u8));
    assert(be_bytes(506713365398851588999621455601289346328255772258767547nat, 23) == be_bytes(1979349083589264019529771310942536509094749110385810nat, 22).push(187u8));
    assert(be_bytes(129718621542106006783903092633930072660033477698244492161nat, 24) == be_bytes(506713365398851588999621455601289346328255772258767547nat, 23).push(129u8));
    assert(be_bytes(33207967114779137736679191714286098600968570290750589993444nat, 25) == be_bytes(129718621542106006783903092633930072660033477698244492161nat, 24).push(228u8));
    assert(be_bytes(8501239581383459260589873078857241241847953994432151038321695nat, 26) == be_bytes(33207967114779137736679191714286098600968570290750589993444nat, 25).push(31u8));
    assert(be_bytes(2176317332834165570711007508187453757913076222574630665810354088nat, 27) == be_bytes(8501239581383459260589873078857241241847953994432151038321695nat, 26).push(168u8));
    assert(be_bytes(557137237205546386102017922095988162025747512979105450447450646592nat, 28) == be_bytes(2176317332834165570711007508187453757913076222574630665810354088nat, 27).push(64u8));
    assert(be_bytes(142627132724619874842116588056572969478591363322650995314547365527617nat, 29) == be_bytes(557137237205546386102017922095988162025747512979105450447450646592nat, 28).push(65u8));
    assert(be_bytes(36512545977502687959581846542482680186519389010598654800524125575069957nat, 30) == be_bytes(142627132724619874842116588056572969478591363322650995314547365527617nat, 29).push(5u8));
    assert(be_bytes(9347211770240688117652952714875566127748963586713255628934176147217909060nat, 31) == be_bytes(36512545977502687959581846542482680186519389010598654800524125575069957nat, 30).push(68u8));
    assert(be_bytes(2392886213181616158119155895008144928703734678198593441007149093687784719501nat, 32) == be_bytes(9347211770240688117652952714875566127748963586713255628934176147217909060nat, 31).push(141u8));
    assert(be_bytes(2392886213181616158119155895008144928703734678198593441007149093687784719501nat, 32)[0] == 5u8);
    assert(be_bytes(2392886213181616158119155895008144928703734678198593441007149093687784719501nat, 32)[1] == 74u8);
    assert(be_bytes(2392886213181616158119155895008144928703734678198593441007149093687784719501nat, 32)[2] == 83u8);
    assert(be_bytes(2392886213181616158119155895008144928703734678198593441007149093687784719501nat, 32)[3] == 90u8);
    assert(be_bytes(2392886213181616158119155895008144928703734678198593441007149093687784719501nat, 32)[4] == 153u8);
    assert(be_bytes(2392886213181616158119155895008144928703734678198593441007149093687784719501nat, 32)[5] == 41u8);
    assert(be_bytes(2392886213181616158119155895008144928703734678198593441007149093687784719501nat, 32)[6] == 33u8);
    assert(be_bytes(2392886213181616158119155895008144928703734678198593441007149093687784719501nat, 32)[7] == 6u8);
    assert(be_bytes(2392886213181616158119155895008144928703734678198593441007149093687784719501nat, 32)[8] == 77u8);
    assert(be_bytes(2392886213181616158119155895008144928703734678198593441007149093687784719501nat, 32)[9] == 36u8);
    assert(be_bytes(2392886213181616158119155895008144928703734678198593441007149093687784719501nat, 32)[10] == 232u8);
    assert(be_bytes(2392886213181616158119155895008144928703734678198593441007149093687784719501nat, 32)[11] == 113u8);
    assert(be_bytes(2392886213181616158119155895008144928703734678198593441007149093687784719501nat, 32)[12] == 96u8);
    assert(be_bytes(2392886213181616158119155895008144928703734678198593441007149093687784719501nat, 32)[13] == 218u8);
    assert(be_bytes(2392886213181616158119155895008144928703734678198593441007149093687784719501nat, 32)[14] == 56u8);
    assert(be_bytes(2392886213181616158119155895008144928703734678198593441007149093687784719501nat, 32)[15] == 124u8);
    assert(be_bytes(2392886213181616158119155895008144928703734678198593441007149093687784719501nat, 32)[16] == 124u8);
    assert(be_bytes(2392886213181616158119155895008144928703734678198593441007149093687784719501nat, 32)[17] == 53u8);
    assert(be_bytes(2392886213181616158119155895008144928703734678198593441007149093687784719501nat, 32)[18] == 181u8);
    assert(be_bytes(2392886213181616158119155895008144928703734678198593441007149093687784719501nat, 32)[19] == 221u8);
    assert(be_bytes(2392886213181616158119155895008144928703734678198593441007149093687784719501nat, 32)[20] == 188u8);
    assert(be_bytes(2392886213181616158119155895008144928703734678198593441007149093687784719501nat, 32)[21] == 146u8);
    assert(be_bytes(2392886213181616158119155895008144928703734678198593441007149093687784719501nat, 32)[22] == 187u8);
    assert(be_bytes(2392886213181616158119155895008144928703734678198593441007149093687784719501nat, 32)[23] == 129u8);
    assert(be_bytes(2392886213181616158119155895008144928703734678198593441007149093687784719501nat, 32)[24] == 228u8);
    assert(be_bytes(2392886213181616158119155895008144928703734678198593441007149093687784719501nat, 32)[25] == 31u8);
    assert(be_bytes(2392886213181616158119155895008144928703734678198593441007149093687784719501nat, 32)[26] == 168u8);
    assert(be_bytes(2392886213181616158119155895008144928703734678198593441007149093687784719501nat, 32)[27] == 64u8);
    assert(be_bytes(2392886213181616158119155895008144928703734678198593441007149093687784719501nat, 32)[28] == 65u8);
    assert(be_bytes(2392886213181616158119155895008144928703734678198593441007149093687784719501nat, 32)[29] == 5u8);
    assert(be_bytes(2392886213181616158119155895008144928703734678198593441007149093687784719501nat, 32)[30] == 68u8);
    assert(be_bytes(2392886213181616158119155895008144928703734678198593441007149093687784719501nat, 32)[31] == 141u8);
}

/// The memo program's text decodes to its 32 bytes.
pub proof fn lemma_memo_program_decodes()
    ensures
        parsed_pubkey(memo_program_text()) == Some(memo_program_bytes()),
{
    lemma_memo_value();
    lemma_memo_bytes();
    assert(leading_ones(memo_program_text(), 0) == 0);
    assert(Seq::new(0, |i: int| 0u8) + memo_program_bytes() =~= memo_program_bytes());
}

} // verus!
