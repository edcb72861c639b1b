# piscine

Pilotage d'une pompe de filtration de piscine sur ESP32 : la logique de décision
est une bibliothèque vérifiée avec Verus (`src/`), le micrologiciel qui l'entoure
(`app/`) fait les entrées-sorties.

## Bibliothèque (`src/`)

- `securite`, `niveau_eau`, `pompe` : sécurités process (défaut moteur verrouillé,
  niveau d'eau à hystérésis et filtre temporel), anti-claquement du relais, cumul
  du temps de marche.
- `pilotage`, `filtration_auto`, `boost`, `filtre_mode` : décision de marche selon
  le mode, l'anti-gel absolu, l'objectif de filtration du jour, la plage horaire et
  la marche forcée.
- `surveillance_reseau` : fenêtre glissante des sondages de la passerelle et
  escalade corrective (reconnexion, relance du pilote Wi-Fi, redémarrage).
- `journal`, `sauvegarde` : lignes des journaux CSV bornés, sauvegarde et relecture
  de la timeline et des compteurs du jour.
- `temps`, `gps` : heure de Paris, formats de date et d'heure, décodage NMEA (par
  `nmea0183`) et fraîcheur des données GPS.
- `ds18b20`, `aht10`, `pcf8574`, `ecran`, `alertes`, `envois`, `requetes` : cadence
  de la sonde d'eau, décodage des capteurs et de l'expandeur, navigation de
  l'écran, fronts d'alerte, cadence et corps JSON des envois, commandes de la
  page web.

Les durées sont en millisecondes d'une horloge monotone, les températures en
seizièmes de degré, les heures du jour en secondes ou en minutes depuis minuit.
Chaque type qui dépend du temps a des méthodes `_a` qui reçoivent l'instant et ont
un contrat exact pour toute valeur de celui-ci.

## Micrologiciel (`app/`)

Boucle principale, pilotes ESP-IDF (I2C, 1-Wire, UART, ADC, Wi-Fi, NVS), serveur
web, envoi vers Adafruit IO et sonde réseau dans des fils dédiés.

## Tests (`tests/`)

Scénarios sur valeurs concrètes pour chaque module de la bibliothèque.
