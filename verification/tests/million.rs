use curve25519::codec::x25519;

fn hex_bytes(s: &str) -> Vec<u8> {
    (0..s.len() / 2).map(|i| u8::from_str_radix(&s[2 * i..2 * i + 2], 16).unwrap()).collect()
}

/// Iterates `(k, u) <- (X25519(k, u), k)` a hundred thousand times from the given pair and
/// expects the given pair.
fn hundred_thousand(k: &str, u: &str, k_after: &str, u_after: &str) {
    let mut k = hex_bytes(k);
    let mut u = hex_bytes(u);
    for _ in 0..100_000 {
        let out = x25519(&k, &u).unwrap();
        u = k;
        k = out.to_vec();
    }
    assert_eq!(k, hex_bytes(k_after));
    assert_eq!(u, hex_bytes(u_after));
}

// The million iterations from k = u = 9, a hundred thousand at a time: each part starts where
// the part before it ends, and the last ends at the value after a million steps.
#[test]
fn a_million_iterations_first_tenth() {
    hundred_thousand(
        "0900000000000000000000000000000000000000000000000000000000000000",
        "0900000000000000000000000000000000000000000000000000000000000000",
        "58698a8c126b120405697d7b449257f249ed4ebd8b3e5478fbf6a23c7ff17529",
        "bc41fced43bc8050cbac264c413175b97d043cf9d1477a2f18bbc36687e2276e",
    );
}

#[test]
fn a_million_iterations_second_tenth() {
    hundred_thousand(
        "58698a8c126b120405697d7b449257f249ed4ebd8b3e5478fbf6a23c7ff17529",
        "bc41fced43bc8050cbac264c413175b97d043cf9d1477a2f18bbc36687e2276e",
        "b63b8f318e9cc1ba05780a1bf6c9dd15bc76c815843528bb35037b55d75ab10e",
        "b7fc08ecfb6e3ceb02c6b2b3fd6ec166ca18c247c5cb3eb30f0009fbd6b01142",
    );
}

#[test]
fn a_million_iterations_third_tenth() {
    hundred_thousand(
        "b63b8f318e9cc1ba05780a1bf6c9dd15bc76c815843528bb35037b55d75ab10e",
        "b7fc08ecfb6e3ceb02c6b2b3fd6ec166ca18c247c5cb3eb30f0009fbd6b01142",
        "8259f6ef04fe78595095d1670f06de1811d906a8c4d84a29dddc34678ea42474",
        "151f2544d9992d0db398afad8b54971405bcae03dbe492a5d3f62f4867ca702f",
    );
}

#[test]
fn a_million_iterations_fourth_tenth() {
    hundred_thousand(
        "8259f6ef04fe78595095d1670f06de1811d906a8c4d84a29dddc34678ea42474",
        "151f2544d9992d0db398afad8b54971405bcae03dbe492a5d3f62f4867ca702f",
        "eff2fc9c6496a11f932a1ad6649647e886ae1aab005aa740d896dc672ed72464",
        "dd9a6224cb4a562f7d81b946da006f119c2dc143160c55b6c43adbcebb890c42",
    );
}

#[test]
fn a_million_iterations_fifth_tenth() {
    hundred_thousand(
        "eff2fc9c6496a11f932a1ad6649647e886ae1aab005aa740d896dc672ed72464",
        "dd9a6224cb4a562f7d81b946da006f119c2dc143160c55b6c43adbcebb890c42",
        "ef134a6bc887e43772479c9d3eeff8fcf5f079bf50f38c3ebfa159a391a97616",
        "1f47a3aae82ea65758bb66a0d59f7f0db5614763c5cc4d2a5f7291e1fe67280a",
    );
}

#[test]
fn a_million_iterations_sixth_tenth() {
    hundred_thousand(
        "ef134a6bc887e43772479c9d3eeff8fcf5f079bf50f38c3ebfa159a391a97616",
        "1f47a3aae82ea65758bb66a0d59f7f0db5614763c5cc4d2a5f7291e1fe67280a",
        "93796b663f1034ab975da7bd025af25367fe3a57874e746bc91239d842f56a2a",
        "a3116c53c4b1774db95798a929d2c8411321c0ceac11c30bdb02acf485892258",
    );
}

#[test]
fn a_million_iterations_seventh_tenth() {
    hundred_thousand(
        "93796b663f1034ab975da7bd025af25367fe3a57874e746bc91239d842f56a2a",
        "a3116c53c4b1774db95798a929d2c8411321c0ceac11c30bdb02acf485892258",
        "937e2ec1ac8166024df9a474a52337cb23f9be7b42ae313e3ae350d58fcc7500",
        "2e1fa477658654b45ee8ca5f93a466e0b03c814053820f73bde96a1a381e3444",
    );
}

#[test]
fn a_million_iterations_eighth_tenth() {
    hundred_thousand(
        "937e2ec1ac8166024df9a474a52337cb23f9be7b42ae313e3ae350d58fcc7500",
        "2e1fa477658654b45ee8ca5f93a466e0b03c814053820f73bde96a1a381e3444",
        "55750f77672c9d3fec85c42ef4e02e2bcba0a587a0a90936687f9f8d68867544",
        "48289e9f296df6a838cb35e8db3f905275b801c0c4c7d176ddcad205c7e07013",
    );
}

#[test]
fn a_million_iterations_ninth_tenth() {
    hundred_thousand(
        "55750f77672c9d3fec85c42ef4e02e2bcba0a587a0a90936687f9f8d68867544",
        "48289e9f296df6a838cb35e8db3f905275b801c0c4c7d176ddcad205c7e07013",
        "03ab9c057b018e0fbe51517040b739110e12b45880e73d1ec70d0592ec1a3b71",
        "5bd6fd4aac82c92a3ba7a545aefa5f844ba879a9784c0f873cee59ca10ead944",
    );
}

#[test]
fn a_million_iterations_tenth_tenth() {
    hundred_thousand(
        "03ab9c057b018e0fbe51517040b739110e12b45880e73d1ec70d0592ec1a3b71",
        "5bd6fd4aac82c92a3ba7a545aefa5f844ba879a9784c0f873cee59ca10ead944",
        "7c3911e0ab2586fd864497297e575e6f3bc601c0883c30df5f4dd2d24f665424",
        "dc05988d881a30b30040d3192edd8dc2dfb5ccb212649422c1d7371676b45b2e",
    );
}
